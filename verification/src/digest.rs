//! The device identifier: an MD5 digest, written in lower-case hexadecimal.

use vstd::prelude::*;

use crate::text::string_of;

verus! {

/// The MD5 digest of the UTF-8 encoding of `text`.
pub uninterp spec fn md5_digest(text: Seq<char>) -> Seq<u8>;

/// `md5::compute` on the bytes of `text`. The contract claims only that the 16 bytes it
/// returns are the MD5 digest of `text` (a fixed function of the text, named above); the
/// digest algorithm itself is not stated here.
#[verifier::external_body]
fn md5_of(text: &str) -> (d: [u8; 16])
    ensures
        d@ == md5_digest(text@),
{
    md5::compute(text).0
}

/// The lower-case hexadecimal digit for `n`, where `n < 16`.
pub open spec fn hex_digit(n: int) -> char {
    if n < 10 {
        (('0' as int) + n) as char
    } else {
        (('a' as int) + n - 10) as char
    }
}

/// Each byte as two lower-case hexadecimal digits, high half first (the `{:x}` form of an
/// `md5::Digest`).
pub open spec fn lower_hex(bytes: Seq<u8>) -> Seq<char>
    decreases bytes.len(),
{
    if bytes.len() == 0 {
        Seq::<char>::empty()
    } else {
        lower_hex(bytes.drop_last()) + seq![
            hex_digit(bytes.last() as int / 16),
            hex_digit(bytes.last() as int % 16),
        ]
    }
}

/// The hexadecimal digit for `n`.
fn hex_char(n: u8) -> (c: char)
    requires
        n < 16,
    ensures
        c == hex_digit(n as int),
{
    if n < 10 {
        (48u8 + n) as char
    } else {
        (87u8 + n) as char
    }
}

/// `bytes` in lower-case hexadecimal, two digits a byte.
pub fn to_lower_hex(bytes: &[u8]) -> (s: String)
    ensures
        s@ == lower_hex(bytes@),
        s@.len() == 2 * bytes@.len(),
{
    let mut digits: Vec<char> = Vec::new();
    let mut i: usize = 0;
    while i < bytes.len()
        invariant
            i <= bytes@.len(),
            digits@ == lower_hex(bytes@.take(i as int)),
            digits@.len() == 2 * i,
        decreases bytes@.len() - i,
    {
        let b = bytes[i];
        digits.push(hex_char(b / 16));
        digits.push(hex_char(b % 16));
        assert(bytes@.take(i + 1).drop_last() =~= bytes@.take(i as int));
        i = i + 1;
        assert(digits@ =~= lower_hex(bytes@.take(i as int)));
    }
    assert(bytes@.take(i as int) =~= bytes@);
    let s = string_of(&digits, 0, digits.len());
    assert(digits@.subrange(0, digits@.len() as int) =~= digits@);
    s
}

/// The identifier that a device named `name` gets: the MD5 digest of the name in
/// lower-case hexadecimal.
pub fn device_id_for(name: &str) -> (id: String)
    ensures
        id@ == lower_hex(md5_digest(name@)),
        id@.len() == 32,
{
    let d = md5_of(name);
    let s = to_lower_hex(&d);
    s
}

} // verus!
