//! Text handling for the command output and configuration values this crate reads:
//! whitespace, trimming, lines, words, substring search and `:`-separated fields.

use vstd::prelude::*;

verus! {

/// The Unicode `White_Space` property, the set of characters that `char::is_whitespace`
/// accepts.
pub open spec fn is_white_space(c: char) -> bool {
    ||| ('\u{9}' <= c && c <= '\u{d}')
    ||| c == ' '
    ||| c == '\u{85}'
    ||| c == '\u{a0}'
    ||| c == '\u{1680}'
    ||| ('\u{2000}' <= c && c <= '\u{200a}')
    ||| c == '\u{2028}'
    ||| c == '\u{2029}'
    ||| c == '\u{202f}'
    ||| c == '\u{205f}'
    ||| c == '\u{3000}'
}

/// Whether `c` has the Unicode `White_Space` property.
pub fn is_whitespace(c: char) -> (b: bool)
    ensures
        b == is_white_space(c),
{
    ('\u{9}' <= c && c <= '\u{d}') || c == ' ' || c == '\u{85}' || c == '\u{a0}' || c
        == '\u{1680}' || ('\u{2000}' <= c && c <= '\u{200a}') || c == '\u{2028}' || c
        == '\u{2029}' || c == '\u{202f}' || c == '\u{205f}' || c == '\u{3000}'
}

/// The characters of `s`, in order.
pub fn chars_of(s: &str) -> (v: Vec<char>)
    ensures
        v@ == s@,
{
    let n = s.unicode_len();
    let mut v: Vec<char> = Vec::new();
    let mut i: usize = 0;
    while i < n
        invariant
            n == s@.len(),
            i <= n,
            v@ == s@.take(i as int),
        decreases n - i,
    {
        let c = s.get_char(i);
        v.push(c);
        i = i + 1;
        assert(v@ =~= s@.take(i as int));
    }
    assert(v@ =~= s@);
    v
}

/// Appends `c` to `s` (`String::push`).
#[verifier::external_body]
fn push_char(s: &mut String, c: char)
    ensures
        final(s)@ == old(s)@.push(c),
{
    s.push(c);
}

/// The string made of `v[lo..hi]`.
pub fn string_of(v: &Vec<char>, lo: usize, hi: usize) -> (s: String)
    requires
        lo <= hi <= v@.len(),
    ensures
        s@ == v@.subrange(lo as int, hi as int),
{
    let mut s = String::new();
    let mut i: usize = lo;
    while i < hi
        invariant
            lo <= i <= hi <= v@.len(),
            s@ == v@.subrange(lo as int, i as int),
        decreases hi - i,
    {
        push_char(&mut s, v[i]);
        i = i + 1;
        assert(s@ =~= v@.subrange(lo as int, i as int));
    }
    s
}


/// `s` without its leading whitespace.
pub open spec fn trim_start(s: Seq<char>) -> Seq<char>
    decreases s.len(),
{
    if s.len() > 0 && is_white_space(s[0]) {
        trim_start(s.drop_first())
    } else {
        s
    }
}

/// `s` without its trailing whitespace.
pub open spec fn trim_end(s: Seq<char>) -> Seq<char>
    decreases s.len(),
{
    if s.len() > 0 && is_white_space(s.last()) {
        trim_end(s.drop_last())
    } else {
        s
    }
}

/// `s` without leading and trailing whitespace (`str::trim`).
pub open spec fn trim(s: Seq<char>) -> Seq<char> {
    trim_end(trim_start(s))
}

/// The bounds `lo..hi` of `v[from..to]` with leading and trailing whitespace left out.
pub fn trim_range(v: &Vec<char>, from: usize, to: usize) -> (r: (usize, usize))
    requires
        from <= to <= v@.len(),
    ensures
        from <= r.0 <= r.1 <= to,
        v@.subrange(r.0 as int, r.1 as int) == trim(v@.subrange(from as int, to as int)),
{
    let mut lo = from;
    while lo < to && is_whitespace(v[lo])
        invariant
            from <= lo <= to <= v@.len(),
            trim_start(v@.subrange(from as int, to as int)) == trim_start(
                v@.subrange(lo as int, to as int),
            ),
        decreases to - lo,
    {
        assert(v@.subrange(lo as int, to as int).drop_first() =~= v@.subrange(
            lo + 1,
            to as int,
        ));
        lo = lo + 1;
    }
    let ghost start = v@.subrange(lo as int, to as int);
    assert(trim_start(start) == start);
    let mut hi = to;
    while hi > lo && is_whitespace(v[hi - 1])
        invariant
            from <= lo <= hi <= to <= v@.len(),
            trim_end(start) == trim_end(v@.subrange(lo as int, hi as int)),
        decreases hi - lo,
    {
        assert(v@.subrange(lo as int, hi as int).drop_last() =~= v@.subrange(
            lo as int,
            hi - 1,
        ));
        hi = hi - 1;
    }
    (lo, hi)
}

/// `s` with leading and trailing whitespace removed (`str::trim`).
pub fn trimmed(s: &str) -> (t: String)
    ensures
        t@ == trim(s@),
{
    let v = chars_of(s);
    let (lo, hi) = trim_range(&v, 0, v.len());
    assert(v@.subrange(0, v@.len() as int) =~= v@);
    string_of(&v, lo, hi)
}

/// Whether `needle` occurs in `hay` at position `i`.
pub open spec fn occurs_at(hay: Seq<char>, needle: Seq<char>, i: int) -> bool {
    0 <= i && i + needle.len() <= hay.len() && hay.subrange(i, i + needle.len()) == needle
}

/// Whether `needle` occurs in `hay` (`str::contains`).
pub open spec fn contains(hay: Seq<char>, needle: Seq<char>) -> bool {
    exists|i: int| occurs_at(hay, needle, i)
}

/// Whether `needle` occurs in `hay` at position `i`.
fn matches_at(hay: &Vec<char>, needle: &Vec<char>, i: usize) -> (b: bool)
    requires
        i + needle@.len() <= hay@.len(),
    ensures
        b == occurs_at(hay@, needle@, i as int),
{
    let hay_len = hay.len();
    let mut k: usize = 0;
    while k < needle.len()
        invariant
            i + needle@.len() <= hay@.len(),
            hay_len == hay@.len(),
            k <= needle@.len(),
            forall|j: int| 0 <= j < k ==> hay@[i + j] == needle@[j],
        decreases needle@.len() - k,
    {
        if hay[i + k] != needle[k] {
            assert(hay@.subrange(i as int, i + needle@.len())[k as int] != needle@[k as int]);
            return false;
        }
        k = k + 1;
    }
    assert(hay@.subrange(i as int, i + needle@.len()) =~= needle@);
    true
}

/// Whether `needle` occurs in `hay`.
pub fn contains_chars(hay: &Vec<char>, needle: &Vec<char>) -> (b: bool)
    ensures
        b == contains(hay@, needle@),
{
    if needle.len() > hay.len() {
        return false;
    }
    if needle.len() == 0 {
        assert(hay@.subrange(0, 0) =~= needle@);
        assert(occurs_at(hay@, needle@, 0));
        return true;
    }
    let hay_len = hay.len();
    let last = hay_len - needle.len();
    let mut i: usize = 0;
    while i <= last
        invariant
            hay_len == hay@.len(),
            last + needle@.len() == hay@.len(),
            needle@.len() >= 1,
            i <= last + 1,
            forall|j: int| 0 <= j < i ==> !occurs_at(hay@, needle@, j),
        decreases last + 1 - i,
    {
        if matches_at(hay, needle, i) {
            return true;
        }
        i = i + 1;
    }
    false
}


/// The pieces of `s` between `'\n'` characters: one more piece than `s` has newlines.
pub open spec fn pieces(s: Seq<char>) -> Seq<Seq<char>>
    decreases s.len(),
{
    if s.len() == 0 {
        seq![Seq::<char>::empty()]
    } else {
        let p = pieces(s.drop_last());
        if s.last() == '\n' {
            p.push(Seq::<char>::empty())
        } else {
            p.update(p.len() - 1, p.last().push(s.last()))
        }
    }
}

/// `line` without a final `'\r'`.
pub open spec fn strip_cr(line: Seq<char>) -> Seq<char> {
    if line.len() > 0 && line.last() == '\r' {
        line.drop_last()
    } else {
        line
    }
}

/// The lines of `s` (`str::lines`): the text is split at each `'\n'`, a `'\r'` right before
/// a `'\n'` is dropped with it, and a final empty piece is no line.
pub open spec fn lines(s: Seq<char>) -> Seq<Seq<char>> {
    let p = pieces(s);
    let ended = Seq::new((p.len() - 1) as nat, |i: int| strip_cr(p[i]));
    if p.last().len() == 0 {
        ended
    } else {
        ended.push(p.last())
    }
}

/// There is always at least one piece.
pub proof fn lemma_pieces_len(s: Seq<char>)
    ensures
        pieces(s).len() >= 1,
    decreases s.len(),
{
    if s.len() > 0 {
        lemma_pieces_len(s.drop_last());
    }
}

/// The text of an optional string.
pub open spec fn opt_view(o: Option<String>) -> Option<Seq<char>> {
    match o {
        Some(s) => Some(s@),
        None => None,
    }
}

/// The views of a sequence of strings.
pub open spec fn views(v: Seq<String>) -> Seq<Seq<char>> {
    v.map_values(|x: String| x@)
}

/// The lines of `s`, as `str::lines` gives them.
pub fn lines_of(s: &str) -> (r: Vec<String>)
    ensures
        views(r@) == lines(s@),
{
    let v = chars_of(s);
    let n = v.len();
    let mut done: Vec<String> = Vec::new();
    let mut start: usize = 0;
    let mut i: usize = 0;
    while i < n
        invariant
            n == v@.len(),
            v@ == s@,
            start <= i <= n,
            ({
                let p = pieces(v@.take(i as int));
                &&& p.len() == done@.len() + 1
                &&& views(done@) == Seq::new(done@.len(), |k: int| strip_cr(p[k]))
                &&& p.last() == v@.subrange(start as int, i as int)
            }),
        decreases n - i,
    {
        let ghost p = pieces(v@.take(i as int));
        proof {
            lemma_pieces_len(v@.take(i as int));
            assert(v@.take(i + 1).drop_last() =~= v@.take(i as int));
            assert(v@.take(i + 1).last() == v@[i as int]);
        }
        if v[i] == '\n' {
            let mut end = i;
            if end > start && v[end - 1] == '\r' {
                end = end - 1;
            }
            let line = string_of(&v, start, end);
            assert(line@ == strip_cr(p.last())) by {
                if i > start && v@[i - 1] == '\r' {
                    assert(p.last().drop_last() =~= v@.subrange(start as int, i - 1));
                }
            }
            let ghost before = views(done@);
            done.push(line);
            start = i + 1;
            proof {
                assert(views(done@) =~= before.push(line@));
                let q = pieces(v@.take(i + 1));
                assert(q == p.push(Seq::<char>::empty()));
                assert(views(done@) =~= Seq::new(done@.len(), |k: int| strip_cr(q[k])));
                assert(q.last() =~= v@.subrange(start as int, (i + 1) as int));
            }
        } else {
            proof {
                let q = pieces(v@.take(i + 1));
                assert(q == p.update(p.len() - 1, p.last().push(v@[i as int])));
                assert forall|k: int| 0 <= k < done@.len() implies q[k] == p[k] by {}
                assert(views(done@) =~= Seq::new(done@.len(), |k: int| strip_cr(q[k])));
                assert(q.last() =~= v@.subrange(start as int, (i + 1) as int));
            }
        }
        i = i + 1;
    }
    assert(v@.take(n as int) =~= v@);
    let ghost p = pieces(v@);
    let ghost ended = Seq::new((p.len() - 1) as nat, |k: int| strip_cr(p[k]));
    assert(views(done@) =~= ended);
    if start < n {
        let last = string_of(&v, start, n);
        let ghost before = views(done@);
        done.push(last);
        assert(views(done@) =~= before.push(last@));
        assert(views(done@) =~= ended.push(p.last()));
    } else {
        assert(p.last().len() == 0);
    }
    done
}

/// The whitespace-separated words of `s` (`str::split_whitespace`).
pub open spec fn words(s: Seq<char>) -> Seq<Seq<char>>
    decreases s.len(),
{
    if s.len() == 0 {
        seq![]
    } else {
        let w = words(s.drop_last());
        let c = s.last();
        if is_white_space(c) {
            w
        } else if s.len() >= 2 && !is_white_space(s[s.len() - 2]) {
            w.update(w.len() - 1, w.last().push(c))
        } else {
            w.push(seq![c])
        }
    }
}

/// A text that ends in a non-whitespace character has at least one word.
pub proof fn lemma_words_len(s: Seq<char>)
    requires
        s.len() > 0,
        !is_white_space(s.last()),
    ensures
        words(s).len() >= 1,
    decreases s.len(),
{
    if s.len() >= 2 && !is_white_space(s[s.len() - 2]) {
        lemma_words_len(s.drop_last());
    }
}

/// The words of `v[from..to]`, as `str::split_whitespace` gives them.
pub fn words_of(v: &Vec<char>, from: usize, to: usize) -> (r: Vec<String>)
    requires
        from <= to <= v@.len(),
    ensures
        views(r@) == words(v@.subrange(from as int, to as int)),
{
    let ghost s = v@.subrange(from as int, to as int);
    let mut done: Vec<String> = Vec::new();
    let mut in_word = false;
    let mut start: usize = from;
    let mut i: usize = from;
    while i < to
        invariant
            from <= start <= i <= to <= v@.len(),
            s == v@.subrange(from as int, to as int),
            in_word == (i > from && !is_white_space(v@[i - 1])),
            in_word ==> start < i,
            in_word ==> words(s.take(i - from)) == views(done@).push(
                v@.subrange(start as int, i as int),
            ),
            !in_word ==> words(s.take(i - from)) == views(done@),
        decreases to - i,
    {
        let ghost t = s.take(i - from);
        let ghost t1 = s.take(i + 1 - from);
        assert(t1.drop_last() =~= t);
        assert(t1.last() == v@[i as int]);
        if i > from {
            assert(t1[t1.len() - 2] == v@[i - 1]);
        }
        if is_whitespace(v[i]) {
            if in_word {
                let word = string_of(v, start, i);
                let ghost before = views(done@);
                done.push(word);
                assert(views(done@) =~= before.push(word@));
                assert(views(done@) =~= words(t));
            }
            in_word = false;
        } else {
            if !in_word {
                start = i;
                assert(v@.subrange(start as int, i + 1) =~= seq![v@[i as int]]);
                assert(views(done@).push(v@.subrange(start as int, i + 1)) =~= words(t1));
            } else {
                assert(v@.subrange(start as int, i + 1) =~= v@.subrange(start as int, i as int).push(v@[i as int]));
                let ghost w = words(t);
                assert(w.len() == done@.len() + 1);
                assert(w.last() == v@.subrange(start as int, i as int));
                assert(words(t1) == w.update(w.len() - 1, w.last().push(v@[i as int])));
                assert(views(done@).push(v@.subrange(start as int, i + 1)) =~= words(t1));
            }
            in_word = true;
        }
        i = i + 1;
    }
    assert(s.take(to - from) =~= s);
    if in_word {
        let word = string_of(v, start, to);
        let ghost before = views(done@);
        done.push(word);
        assert(views(done@) =~= before.push(word@));
        assert(views(done@) =~= words(s));
    }
    done
}


/// What follows the first `':'` of `s`, if it has one.
pub open spec fn after_colon(s: Seq<char>) -> Option<Seq<char>>
    decreases s.len(),
{
    if s.len() == 0 {
        None
    } else if s[0] == ':' {
        Some(s.drop_first())
    } else {
        after_colon(s.drop_first())
    }
}

/// The text after the first `':'` of `s`, or the empty text where `s` has no `':'`
/// (`s.split_once(':').map_or("", |(_, rest)| rest)`).
pub open spec fn rest_after_colon(s: Seq<char>) -> Seq<char> {
    match after_colon(s) {
        Some(rest) => rest,
        None => Seq::<char>::empty(),
    }
}

/// Where the text after the first `':'` of `v[from..to]` starts (`to` where there is no
/// `':'`).
pub fn rest_after_colon_start(v: &Vec<char>, from: usize, to: usize) -> (r: usize)
    requires
        from <= to <= v@.len(),
    ensures
        from <= r <= to,
        v@.subrange(r as int, to as int) == rest_after_colon(v@.subrange(from as int, to as int)),
{
    let ghost s = v@.subrange(from as int, to as int);
    let mut i = from;
    while i < to && v[i] != ':'
        invariant
            from <= i <= to <= v@.len(),
            after_colon(s) == after_colon(v@.subrange(i as int, to as int)),
        decreases to - i,
    {
        assert(v@.subrange(i as int, to as int).drop_first() =~= v@.subrange(i + 1, to as int));
        i = i + 1;
    }
    if i == to {
        assert(v@.subrange(to as int, to as int) =~= rest_after_colon(s));
        return to;
    }
    assert(v@.subrange(i as int, to as int).drop_first() =~= v@.subrange(i + 1, to as int));
    i + 1
}

/// Each word is a nonempty text without whitespace.
pub open spec fn all_words(w: Seq<Seq<char>>) -> bool {
    forall|i: int|
        0 <= i < w.len() ==> #[trigger] w[i].len() > 0 && forall|j: int|
            0 <= j < w[i].len() ==> !is_white_space(#[trigger] w[i][j])
}

/// `split_whitespace` gives nonempty words without whitespace in them.
pub proof fn lemma_words_are_words(s: Seq<char>)
    ensures
        all_words(words(s)),
    decreases s.len(),
{
    if s.len() > 0 {
        let w = words(s.drop_last());
        lemma_words_are_words(s.drop_last());
        let c = s.last();
        if !is_white_space(c) && s.len() >= 2 && !is_white_space(s[s.len() - 2]) {
            assert(s.drop_last().last() == s[s.len() - 2]);
            lemma_words_len(s.drop_last());
            let last = w.last().push(c);
            assert forall|j: int| 0 <= j < last.len() implies !is_white_space(#[trigger] last[j]) by {
                if j < last.len() - 1 {
                    assert(last[j] == w[w.len() - 1][j]);
                }
            }
        }
    }
}

/// No line holds a `'\n'`.
pub proof fn lemma_lines_have_no_newline(s: Seq<char>)
    ensures
        forall|i: int, j: int|
            0 <= i < lines(s).len() && 0 <= j < lines(s)[i].len() ==> #[trigger] lines(s)[i][j]
                != '\n',
{
    lemma_pieces_have_no_newline(s);
    lemma_pieces_len(s);
    let p = pieces(s);
    assert forall|i: int, j: int|
        0 <= i < lines(s).len() && 0 <= j < lines(s)[i].len() implies #[trigger] lines(s)[i][j]
        != '\n' by {
        if i < p.len() - 1 {
            assert(lines(s)[i] == strip_cr(p[i]));
            assert(strip_cr(p[i])[j] == p[i][j]);
        } else {
            assert(lines(s)[i] == p.last());
        }
    }
}

/// No piece holds a `'\n'`.
pub proof fn lemma_pieces_have_no_newline(s: Seq<char>)
    ensures
        forall|i: int, j: int|
            0 <= i < pieces(s).len() && 0 <= j < pieces(s)[i].len() ==> #[trigger] pieces(s)[i][j]
                != '\n',
    decreases s.len(),
{
    if s.len() > 0 {
        lemma_pieces_have_no_newline(s.drop_last());
        lemma_pieces_len(s.drop_last());
        let p = pieces(s.drop_last());
        if s.last() != '\n' {
            let q = pieces(s);
            assert forall|i: int, j: int|
                0 <= i < q.len() && 0 <= j < q[i].len() implies #[trigger] q[i][j] != '\n' by {
                if i < p.len() - 1 {
                    assert(q[i] == p[i]);
                } else if j < q[i].len() - 1 {
                    assert(q[i][j] == p[i][j]);
                }
            }
        }
    }
}

} // verus!
