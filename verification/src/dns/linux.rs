//! The DNS managers of Linux: `resolvectl`, and `/etc/resolv.conf` written in place or
//! bind-mounted over.

use vstd::prelude::*;

use super::{DNSManagerTrait, DnsAction, Step, steps, str_views, to_strings};
use crate::text::{
    chars_of, contains, contains_chars, lines, lines_of, rest_after_colon, rest_after_colon_start,
    opt_view, string_of, trim, trim_range, views, words, words_of,
};

verus! {

/// The manager that works through `resolvectl` on one interface.
pub struct ResolvectlDNSManager {
    interface: String,
    original_dns: Option<String>,
    original_search: Option<String>,
}

/// The program that talks to `systemd-resolved`.
pub const RESOLVECTL: &'static str = "resolvectl";

/// What marks the line of `resolvectl status` that lists an interface's DNS servers.
pub const DNS_SERVERS_LABEL: &'static str = "DNS Servers:";

/// What marks the line of `resolvectl status` that lists an interface's search domains.
pub const DNS_DOMAIN_LABEL: &'static str = "DNS Domain:";

/// The value a `resolvectl status` line gives: all the text after its label's `':'`,
/// trimmed (so an IPv6 server such as `2001:db8::1` is kept whole).
pub open spec fn status_value(line: Seq<char>) -> Seq<char> {
    trim(rest_after_colon(line))
}

/// The DNS servers that `resolvectl status` output with lines `ls` lists: the value of the
/// last line that holds `DNS Servers:`.
pub open spec fn status_servers(ls: Seq<Seq<char>>) -> Option<Seq<char>>
    decreases ls.len(),
{
    if ls.len() == 0 {
        None
    } else if contains(ls.last(), DNS_SERVERS_LABEL@) {
        Some(status_value(ls.last()))
    } else {
        status_servers(ls.drop_last())
    }
}

/// The search domains that `resolvectl status` output with lines `ls` lists: the value of
/// the last line that holds `DNS Domain:` and not `DNS Servers:`.
pub open spec fn status_domains(ls: Seq<Seq<char>>) -> Option<Seq<char>>
    decreases ls.len(),
{
    if ls.len() == 0 {
        None
    } else if !contains(ls.last(), DNS_SERVERS_LABEL@) && contains(ls.last(), DNS_DOMAIN_LABEL@) {
        Some(status_value(ls.last()))
    } else {
        status_domains(ls.drop_last())
    }
}

/// The steps that put `servers` and `search` in place on interface `iface`: none where
/// either the servers or the interface name is empty; else the current settings are read,
/// then the servers set, then the search domains where there are any.
pub open spec fn resolvectl_set_steps(
    iface: Seq<char>,
    servers: Seq<Seq<char>>,
    search: Seq<Seq<char>>,
) -> Seq<Step> {
    if servers.len() == 0 || iface.len() == 0 {
        Seq::<Step>::empty()
    } else {
        let domains = if search.len() == 0 {
            Seq::<Step>::empty()
        } else {
            seq![Step::Run { program: RESOLVECTL@, args: seq!["domain"@, iface] + search }]
        };
        seq![
            Step::Capture { program: RESOLVECTL@, args: seq!["status"@, iface] },
            Step::Run { program: RESOLVECTL@, args: seq!["dns"@, iface] + servers },
        ] + domains
    }
}

/// `resolvectl <verb> <iface> <words of value>` where `value` is there and not empty.
pub open spec fn resolvectl_put_back(
    verb: Seq<char>,
    iface: Seq<char>,
    value: Option<Seq<char>>,
) -> Seq<Step> {
    match value {
        Some(v) => if v.len() > 0 {
            seq![Step::Run { program: RESOLVECTL@, args: seq![verb, iface] + words(v) }]
        } else {
            Seq::<Step>::empty()
        },
        None => Seq::<Step>::empty(),
    }
}

/// The steps that put back the servers `dns` and domains `search` found on interface
/// `iface`: none where the interface name is empty.
pub open spec fn resolvectl_restore_steps(
    iface: Seq<char>,
    dns: Option<Seq<char>>,
    search: Option<Seq<char>>,
) -> Seq<Step> {
    if iface.len() == 0 {
        Seq::<Step>::empty()
    } else {
        resolvectl_put_back("dns"@, iface, dns) + resolvectl_put_back("domain"@, iface, search)
    }
}

/// What a `resolvectl` manager that found `dns` and `search` has found after a reading step
/// handed it the status output `output`: what it had, where it had anything; else what the
/// output lists.
pub open spec fn found_after(
    dns: Option<Seq<char>>,
    search: Option<Seq<char>>,
    output: Seq<char>,
) -> (Option<Seq<char>>, Option<Seq<char>>) {
    if dns is None && search is None {
        (status_servers(lines(output)), status_domains(lines(output)))
    } else {
        (dns, search)
    }
}

/// The value of the `resolvectl status` line `line`.
pub fn status_value_of(line: &Vec<char>) -> (v: String)
    ensures
        v@ == status_value(line@),
{
    let lo = rest_after_colon_start(line, 0, line.len());
    assert(line@.subrange(0, line@.len() as int) =~= line@);
    let (a, b) = trim_range(line, lo, line.len());
    string_of(line, a, b)
}

/// `args` after `first` and `second`.
fn args_after(first: &str, second: &String, rest: Vec<String>) -> (r: Vec<String>)
    ensures
        views(r@) == seq![first@, second@] + views(rest@),
{
    let mut r: Vec<String> = Vec::new();
    r.push(first.to_owned());
    r.push(second.clone());
    let mut i: usize = 0;
    while i < rest.len()
        invariant
            i <= rest@.len(),
            views(r@) == seq![first@, second@] + views(rest@.take(i as int)),
        decreases rest@.len() - i,
    {
        let ghost before = views(r@);
        r.push(rest[i].clone());
        assert(views(r@) =~= before.push(rest@[i as int]@));
        i = i + 1;
        assert(views(rest@.take(i as int)) =~= views(rest@.take(i - 1)).push(rest@[i - 1]@));
        assert(views(r@) =~= seq![first@, second@] + views(rest@.take(i as int)));
    }
    assert(rest@.take(i as int) =~= rest@);
    r
}

impl ResolvectlDNSManager {
    /// The interface the settings belong to.
    pub closed spec fn iface(&self) -> Seq<char> {
        self.interface@
    }

    /// The DNS servers found before the first change, if any were found.
    pub closed spec fn found_dns(&self) -> Option<Seq<char>> {
        opt_view(self.original_dns)
    }

    /// The search domains found before the first change, if any were found.
    pub closed spec fn found_search(&self) -> Option<Seq<char>> {
        opt_view(self.original_search)
    }

    /// Whether the manager is as `new` makes it.
    pub open spec fn is_fresh(&self) -> bool {
        self.iface().len() == 0 && self.found_dns() is None && self.found_search() is None
    }

    /// The steps that put the value `value` back with `resolvectl <verb>`.
    fn put_back(&self, verb: &str, value: &Option<String>) -> (r: Vec<DnsAction>)
        ensures
            steps(r@) == resolvectl_put_back(verb@, self.iface(), opt_view(*value)),
    {
        let mut r: Vec<DnsAction> = Vec::new();
        match value {
            Some(v) => {
                if !v.as_str().is_empty() {
                    let chars = chars_of(v.as_str());
                    let ws = words_of(&chars, 0, chars.len());
                    assert(chars@.subrange(0, chars@.len() as int) =~= chars@);
                    let args = args_after(verb, &self.interface, ws);
                    r.push(DnsAction::Run { program: RESOLVECTL.to_owned(), args });
                }
            },
            None => {},
        }
        assert(steps(r@) =~= resolvectl_put_back(verb@, self.iface(), opt_view(*value)));
        r
    }
}

impl DNSManagerTrait for ResolvectlDNSManager {
    fn new() -> (m: Self)
        ensures
            m.is_fresh(),
    {
        ResolvectlDNSManager { interface: String::new(), original_dns: None, original_search: None }
    }

    /// With no servers or no interface, nothing. Otherwise: `resolvectl status <iface>`,
    /// whose output goes to `record`, then `resolvectl dns <iface> <servers>`, then
    /// `resolvectl domain <iface> <domains>` where there are domains.
    fn set_dns(&self, dns_servers: &Vec<&str>, dns_search: &Vec<&str>) -> (r: Vec<DnsAction>)
        ensures
            steps(r@) == resolvectl_set_steps(
                self.iface(),
                str_views(dns_servers@),
                str_views(dns_search@),
            ),
    {
        let mut r: Vec<DnsAction> = Vec::new();
        if dns_servers.len() == 0 || self.interface.as_str().is_empty() {
            assert(steps(r@) =~= Seq::<Step>::empty());
            return r;
        }
        let status = args_after("status", &self.interface, Vec::new());
        assert(views(Seq::<String>::empty()) =~= Seq::<Seq<char>>::empty());
        r.push(DnsAction::Capture { program: RESOLVECTL.to_owned(), args: status });
        let servers = args_after("dns", &self.interface, to_strings(dns_servers));
        r.push(DnsAction::Run { program: RESOLVECTL.to_owned(), args: servers });
        if dns_search.len() > 0 {
            let domains = args_after("domain", &self.interface, to_strings(dns_search));
            r.push(DnsAction::Run { program: RESOLVECTL.to_owned(), args: domains });
        }
        assert(steps(r@) =~= resolvectl_set_steps(
            self.iface(),
            str_views(dns_servers@),
            str_views(dns_search@),
        ));
        r
    }

    /// With no interface, nothing. Otherwise `resolvectl dns` with the servers found and
    /// `resolvectl domain` with the domains found, each where one was found and is not empty.
    fn restore_dns(&self) -> (r: Vec<DnsAction>)
        ensures
            steps(r@) == resolvectl_restore_steps(self.iface(), self.found_dns(), self.found_search()),
    {
        if self.interface.as_str().is_empty() {
            let r: Vec<DnsAction> = Vec::new();
            assert(steps(r@) =~= Seq::<Step>::empty());
            return r;
        }
        let mut r = self.put_back("dns", &self.original_dns);
        let mut rest = self.put_back("domain", &self.original_search);
        let ghost first = steps(r@);
        let ghost second = steps(rest@);
        r.append(&mut rest);
        assert(steps(r@) =~= first + second);
        r
    }

    /// Where neither servers nor domains were found yet, takes them from the
    /// `resolvectl status` output `output`.
    fn record(&mut self, output: String)
        ensures
            final(self).iface() == old(self).iface(),
            (final(self).found_dns(), final(self).found_search()) == found_after(
                old(self).found_dns(),
                old(self).found_search(),
                output@,
            ),
    {
        if self.original_dns.is_none() && self.original_search.is_none() {
            let ls = lines_of(output.as_str());
            let servers_label = chars_of(DNS_SERVERS_LABEL);
            let domain_label = chars_of(DNS_DOMAIN_LABEL);
            let mut dns: Option<String> = None;
            let mut search: Option<String> = None;
            let mut i: usize = 0;
            while i < ls.len()
                invariant
                    i <= ls@.len(),
                    servers_label@ == DNS_SERVERS_LABEL@,
                    domain_label@ == DNS_DOMAIN_LABEL@,
                    opt_view(dns) == status_servers(views(ls@).take(i as int)),
                    opt_view(search) == status_domains(views(ls@).take(i as int)),
                decreases ls@.len() - i,
            {
                let line = chars_of(ls[i].as_str());
                let ghost taken = views(ls@).take(i + 1);
                assert(taken.drop_last() =~= views(ls@).take(i as int));
                assert(taken.last() == line@);
                if contains_chars(&line, &servers_label) {
                    dns = Some(status_value_of(&line));
                } else if contains_chars(&line, &domain_label) {
                    search = Some(status_value_of(&line));
                }
                i = i + 1;
            }
            assert(views(ls@).take(i as int) =~= views(ls@));
            self.original_dns = dns;
            self.original_search = search;
        }
    }

    fn with_interface(&mut self, interface: String)
        ensures
            final(self).iface() == interface@,
            final(self).found_dns() == old(self).found_dns(),
            final(self).found_search() == old(self).found_search(),
    {
        self.interface = interface;
    }
}

/// The manager that writes `/etc/resolv.conf`, in place or bind-mounted over it.
pub struct ResolvConfDNSManager {
    restore: Option<String>,
    use_bind: bool,
}

impl ResolvConfDNSManager {
    /// The `/etc/resolv.conf` contents kept for restoring, if any.
    pub closed spec fn saved(&self) -> Option<Seq<char>> {
        match self.restore {
            Some(s) => Some(s@),
            None => None,
        }
    }

    /// Whether the new file is bind-mounted over `/etc/resolv.conf`.
    pub closed spec fn bind(&self) -> bool {
        self.use_bind
    }

    /// A manager that keeps nothing yet, bind-mounting where `use_bind` says so.
    pub fn new1(use_bind: bool) -> (m: ResolvConfDNSManager)
        ensures
            m.saved() is None,
            m.bind() == use_bind,
    {
        ResolvConfDNSManager { restore: None, use_bind }
    }
}

/// The system resolver's configuration file.
pub const RESOLV_CONF: &'static str = "/etc/resolv.conf";

/// The directory that holds the file bind-mounted over `/etc/resolv.conf`.
pub const RUN_DIR: &'static str = "/run/corplink";

/// The file bind-mounted over `/etc/resolv.conf`.
pub const BOUND_RESOLV_CONF: &'static str = "/run/corplink/resolv.conf";

/// One line `<keyword><item>\n` for each item, in order.
pub open spec fn keyword_lines(keyword: Seq<char>, items: Seq<Seq<char>>) -> Seq<char>
    decreases items.len(),
{
    if items.len() == 0 {
        Seq::<char>::empty()
    } else {
        keyword_lines(keyword, items.drop_last()) + keyword + items.last() + "\n"@
    }
}

/// The `resolv.conf` that names `servers` and `search` domains: a `nameserver` line for each
/// server, then a `search` line for each domain.
pub open spec fn resolv_conf_text(servers: Seq<Seq<char>>, search: Seq<Seq<char>>) -> Seq<char> {
    keyword_lines("nameserver "@, servers) + keyword_lines("search "@, search)
}

/// The steps that put `servers` and `search` in place, for a manager that keeps `saved` and
/// bind-mounts where `bind` says so.
pub open spec fn resolv_conf_set_steps(
    saved: Option<Seq<char>>,
    bind: bool,
    servers: Seq<Seq<char>>,
    search: Seq<Seq<char>>,
) -> Seq<Step> {
    if servers.len() == 0 {
        Seq::<Step>::empty()
    } else {
        let text = resolv_conf_text(servers, search);
        let backup = if saved is None {
            seq![Step::Backup { path: RESOLV_CONF@ }]
        } else {
            Seq::<Step>::empty()
        };
        let write = if bind {
            seq![
                Step::CreateDirAll { path: RUN_DIR@ },
                Step::WriteFile { path: BOUND_RESOLV_CONF@, contents: text },
                Step::Run {
                    program: "mount"@,
                    args: seq!["--bind"@, BOUND_RESOLV_CONF@, RESOLV_CONF@],
                },
            ]
        } else {
            seq![Step::WriteFile { path: RESOLV_CONF@, contents: text }]
        };
        backup + write
    }
}

/// The steps that put back what a manager that keeps `saved` found.
pub open spec fn resolv_conf_restore_steps(saved: Option<Seq<char>>, bind: bool) -> Seq<Step> {
    match saved {
        None => Seq::<Step>::empty(),
        Some(original) => if bind {
            seq![
                Step::Run { program: "umount"@, args: seq![RESOLV_CONF@] },
                Step::RemoveFile { path: BOUND_RESOLV_CONF@ },
            ]
        } else {
            seq![Step::WriteFile { path: RESOLV_CONF@, contents: original }]
        },
    }
}

/// What a manager keeps after a reading step handed it `text`: the first text it was handed.
pub open spec fn kept_after(saved: Option<Seq<char>>, text: Seq<char>) -> Option<Seq<char>> {
    match saved {
        None => Some(text),
        Some(s) => Some(s),
    }
}

/// Appends a line `<keyword><item>\n` to `text` for each item.
fn push_keyword_lines(text: &mut String, keyword: &str, items: &Vec<&str>)
    ensures
        final(text)@ == old(text)@ + keyword_lines(keyword@, str_views(items@)),
{
    let mut i: usize = 0;
    while i < items.len()
        invariant
            i <= items@.len(),
            text@ == old(text)@ + keyword_lines(keyword@, str_views(items@.take(i as int))),
        decreases items@.len() - i,
    {
        let ghost before = text@;
        text.append(keyword);
        text.append(items[i]);
        text.append("\n");
        let ghost taken = str_views(items@.take(i + 1));
        assert(taken.drop_last() =~= str_views(items@.take(i as int)));
        assert(taken.last() == items@[i as int]@);
        i = i + 1;
        assert(text@ =~= old(text)@ + keyword_lines(keyword@, str_views(items@.take(i as int))));
    }
    assert(items@.take(i as int) =~= items@);
}

/// The `resolv.conf` that names `dns_servers` and `dns_search`.
pub fn resolv_conf(dns_servers: &Vec<&str>, dns_search: &Vec<&str>) -> (text: String)
    ensures
        text@ == resolv_conf_text(str_views(dns_servers@), str_views(dns_search@)),
{
    let mut text = String::new();
    push_keyword_lines(&mut text, "nameserver ", dns_servers);
    push_keyword_lines(&mut text, "search ", dns_search);
    assert(text@ =~= resolv_conf_text(str_views(dns_servers@), str_views(dns_search@)));
    text
}

/// An owned copy of `s`.
fn owned(s: &str) -> (r: String)
    ensures
        r@ == s@,
{
    s.to_owned()
}

impl DNSManagerTrait for ResolvConfDNSManager {
    fn new() -> (m: Self)
        ensures
            m.saved() is None,
            !m.bind(),
    {
        ResolvConfDNSManager::new1(false)
    }

    /// With no servers, nothing. Otherwise: a backup of `/etc/resolv.conf` where none is kept
    /// yet, then the new file, written in place or bind-mounted over it.
    fn set_dns(&self, dns_servers: &Vec<&str>, dns_search: &Vec<&str>) -> (r: Vec<DnsAction>)
        ensures
            steps(r@) == resolv_conf_set_steps(
                self.saved(),
                self.bind(),
                str_views(dns_servers@),
                str_views(dns_search@),
            ),
    {
        let mut r: Vec<DnsAction> = Vec::new();
        if dns_servers.len() == 0 {
            assert(steps(r@) =~= Seq::<Step>::empty());
            return r;
        }
        if self.restore.is_none() {
            r.push(DnsAction::Backup { path: owned(RESOLV_CONF) });
        }
        let text = resolv_conf(dns_servers, dns_search);
        if self.use_bind {
            r.push(DnsAction::CreateDirAll { path: owned(RUN_DIR) });
            r.push(DnsAction::WriteFile { path: owned(BOUND_RESOLV_CONF), contents: text });
            let mut args: Vec<String> = Vec::new();
            args.push(owned("--bind"));
            args.push(owned(BOUND_RESOLV_CONF));
            args.push(owned(RESOLV_CONF));
            assert(views(args@) =~= seq!["--bind"@, BOUND_RESOLV_CONF@, RESOLV_CONF@]);
            r.push(DnsAction::Run { program: owned("mount"), args });
        } else {
            r.push(DnsAction::WriteFile { path: owned(RESOLV_CONF), contents: text });
        }
        assert(steps(r@) =~= resolv_conf_set_steps(
            self.saved(),
            self.bind(),
            str_views(dns_servers@),
            str_views(dns_search@),
        ));
        r
    }

    /// With nothing kept, nothing. Otherwise: the bind mount undone and its file removed, or
    /// the kept contents written back to `/etc/resolv.conf`.
    fn restore_dns(&self) -> (r: Vec<DnsAction>)
        ensures
            steps(r@) == resolv_conf_restore_steps(self.saved(), self.bind()),
    {
        let mut r: Vec<DnsAction> = Vec::new();
        match &self.restore {
            None => {},
            Some(original) => {
                if self.use_bind {
                    let mut args: Vec<String> = Vec::new();
                    args.push(owned(RESOLV_CONF));
                    assert(views(args@) =~= seq![RESOLV_CONF@]);
                    r.push(DnsAction::Run { program: owned("umount"), args });
                    r.push(DnsAction::RemoveFile { path: owned(BOUND_RESOLV_CONF) });
                } else {
                    r.push(
                        DnsAction::WriteFile { path: owned(RESOLV_CONF), contents: original.clone() },
                    );
                }
            },
        }
        assert(steps(r@) =~= resolv_conf_restore_steps(self.saved(), self.bind()));
        r
    }

    /// Keeps `output` as the original `/etc/resolv.conf` where nothing is kept yet.
    fn record(&mut self, output: String)
        ensures
            final(self).saved() == kept_after(old(self).saved(), output@),
            final(self).bind() == old(self).bind(),
    {
        if self.restore.is_none() {
            self.restore = Some(output);
        }
    }

    /// The interface is of no use to this manager: it stays as it was.
    fn with_interface(&mut self, _interface: String)
        ensures
            *final(self) == *old(self),
    {
    }
}


/// Restoring writes `/etc/resolv.conf` back as it was read before the first change: a
/// manager keeps the first contents handed to it, and what later reads hand it does not
/// replace them.
pub proof fn lemma_restore_gives_back_first_contents(
    first: Seq<char>,
    later: Seq<Seq<char>>,
)
    ensures
        kept_after_all(kept_after(None, first), later) == Some(first),
        resolv_conf_restore_steps(kept_after_all(kept_after(None, first), later), false) == seq![
            Step::WriteFile { path: RESOLV_CONF@, contents: first },
        ],
    decreases later.len(),
{
    if later.len() > 0 {
        lemma_restore_gives_back_first_contents(first, later.drop_last());
    }
}

/// What a manager keeps after reads that handed it `texts`, in order.
pub open spec fn kept_after_all(saved: Option<Seq<char>>, texts: Seq<Seq<char>>) -> Option<
    Seq<char>,
>
    decreases texts.len(),
{
    if texts.len() == 0 {
        saved
    } else {
        kept_after(kept_after_all(saved, texts.drop_last()), texts.last())
    }
}

/// A manager asks to read `/etc/resolv.conf` only while it keeps no earlier contents, and
/// then before anything is written.
pub proof fn lemma_backup_only_once(
    saved: Option<Seq<char>>,
    bind: bool,
    servers: Seq<Seq<char>>,
    search: Seq<Seq<char>>,
)
    ensures
        ({
            let plan = resolv_conf_set_steps(saved, bind, servers, search);
            &&& (exists|i: int| 0 <= i < plan.len() && plan[i] is Backup) <==> (saved is None
                && servers.len() > 0)
            &&& saved is None && servers.len() > 0 ==> plan[0] is Backup
        }),
{
    let plan = resolv_conf_set_steps(saved, bind, servers, search);
    if saved is None && servers.len() > 0 {
        assert(plan[0] is Backup);
    }
}

/// What a `resolvectl` manager that found `dns` and `search` has found after reading steps
/// handed it the status outputs `outputs`, in order.
pub open spec fn found_after_all(
    dns: Option<Seq<char>>,
    search: Option<Seq<char>>,
    outputs: Seq<Seq<char>>,
) -> (Option<Seq<char>>, Option<Seq<char>>)
    decreases outputs.len(),
{
    if outputs.len() == 0 {
        (dns, search)
    } else {
        let before = found_after_all(dns, search, outputs.drop_last());
        found_after(before.0, before.1, outputs.last())
    }
}

/// Restoring puts back, on the interface, the servers and domains that the first status
/// output listing any of them showed; any number of outputs read later change nothing.
pub proof fn lemma_restore_puts_back_first_status(
    iface: Seq<char>,
    first: Seq<char>,
    later: Seq<Seq<char>>,
)
    requires
        status_servers(lines(first)) is Some || status_domains(lines(first)) is Some,
    ensures
        ({
            let found = found_after(None, None, first);
            let again = found_after_all(found.0, found.1, later);
            &&& found == (status_servers(lines(first)), status_domains(lines(first)))
            &&& again == found
            &&& resolvectl_restore_steps(iface, again.0, again.1) == resolvectl_restore_steps(
                iface,
                status_servers(lines(first)),
                status_domains(lines(first)),
            )
        }),
    decreases later.len(),
{
    if later.len() > 0 {
        lemma_restore_puts_back_first_status(iface, first, later.drop_last());
    }
}

/// With no DNS servers to set, no manager takes a step.
pub proof fn lemma_no_servers_no_steps(
    saved: Option<Seq<char>>,
    bind: bool,
    iface: Seq<char>,
    search: Seq<Seq<char>>,
)
    ensures
        resolv_conf_set_steps(saved, bind, Seq::<Seq<char>>::empty(), search).len() == 0,
        resolvectl_set_steps(iface, Seq::<Seq<char>>::empty(), search).len() == 0,
{
}


/// Setting DNS through `resolvectl` on a named interface with some servers reads the
/// interface's status first, before anything is changed; then sets every server, in order;
/// then, where domains are given, sets every domain, in order; and nothing else. With no
/// servers or no interface name it does nothing.
pub proof fn lemma_resolvectl_set_order(
    iface: Seq<char>,
    servers: Seq<Seq<char>>,
    search: Seq<Seq<char>>,
)
    ensures
        ({
            let p = resolvectl_set_steps(iface, servers, search);
            &&& (servers.len() == 0 || iface.len() == 0) ==> p.len() == 0
            &&& (servers.len() > 0 && iface.len() > 0) ==> {
                &&& p.len() == if search.len() == 0 { 2int } else { 3int }
                &&& p[0] == Step::Capture { program: RESOLVECTL@, args: seq!["status"@, iface] }
                &&& forall|k: int| 0 < k < p.len() ==> (#[trigger] p[k]) is Run
                &&& p[1] matches Step::Run { program, args } && program == RESOLVECTL@
                    && args.len() == servers.len() + 2 && args[0] == "dns"@ && args[1] == iface
                    && forall|k: int| 0 <= k < servers.len() ==> #[trigger] args[k + 2] == servers[k]
                &&& search.len() > 0 ==> (p[2] matches Step::Run { program, args } && program
                    == RESOLVECTL@ && args.len() == search.len() + 2 && args[0] == "domain"@
                    && args[1] == iface && forall|k: int|
                    0 <= k < search.len() ==> #[trigger] args[k + 2] == search[k])
            }
        }),
{
    let p = resolvectl_set_steps(iface, servers, search);
    if servers.len() > 0 && iface.len() > 0 {
        let a = seq!["dns"@, iface] + servers;
        assert forall|k: int| 0 <= k < servers.len() implies #[trigger] a[k + 2] == servers[k] by {}
        if search.len() > 0 {
            let b = seq!["domain"@, iface] + search;
            assert forall|k: int| 0 <= k < search.len() implies #[trigger] b[k + 2] == search[k] by {}
        }
    }
}

/// The servers found in `resolvectl status` output are those of its last line that holds
/// `DNS Servers:`, all the text after that line's first `':'`, trimmed. No servers are found
/// where no line holds `DNS Servers:`, and a line without it (such as
/// `Current DNS Server: …`) never gives them.
pub proof fn lemma_status_servers_from_last_labelled_line(ls: Seq<Seq<char>>)
    ensures
        forall|i: int|
            0 <= i < ls.len() && contains(#[trigger] ls[i], DNS_SERVERS_LABEL@) && (forall|j: int|
                i < j < ls.len() ==> !contains(ls[j], DNS_SERVERS_LABEL@)) ==> status_servers(ls)
                == Some(trim(rest_after_colon(ls[i]))),
        (forall|i: int| 0 <= i < ls.len() ==> !contains(#[trigger] ls[i], DNS_SERVERS_LABEL@))
            <==> status_servers(ls) is None,
    decreases ls.len(),
{
    if ls.len() > 0 {
        let front = ls.drop_last();
        lemma_status_servers_from_last_labelled_line(front);
        assert forall|i: int|
            0 <= i < ls.len() && contains(#[trigger] ls[i], DNS_SERVERS_LABEL@) && (forall|j: int|
                i < j < ls.len() ==> !contains(ls[j], DNS_SERVERS_LABEL@)) implies status_servers(ls)
            == Some(trim(rest_after_colon(ls[i]))) by {
            if i < ls.len() - 1 {
                assert(!contains(ls[ls.len() - 1], DNS_SERVERS_LABEL@));
                assert(front[i] == ls[i]);
                assert forall|j: int| i < j < front.len() implies !contains(
                    front[j],
                    DNS_SERVERS_LABEL@,
                ) by {
                    assert(front[j] == ls[j]);
                }
            }
        }
        if (forall|i: int| 0 <= i < ls.len() ==> !contains(#[trigger] ls[i], DNS_SERVERS_LABEL@)) {
            assert(!contains(ls[ls.len() - 1], DNS_SERVERS_LABEL@));
            assert forall|i: int| 0 <= i < front.len() implies !contains(
                #[trigger] front[i],
                DNS_SERVERS_LABEL@,
            ) by {
                assert(front[i] == ls[i]);
            }
        }
        if status_servers(ls) is None {
            assert forall|i: int| 0 <= i < ls.len() implies !contains(
                #[trigger] ls[i],
                DNS_SERVERS_LABEL@,
            ) by {
                if i < ls.len() - 1 {
                    assert(front[i] == ls[i]);
                }
            }
        }
    }
}

/// Whether a `resolvectl status` line lists search domains: it holds `DNS Domain:` and not
/// `DNS Servers:`.
pub open spec fn is_domain_line(line: Seq<char>) -> bool {
    !contains(line, DNS_SERVERS_LABEL@) && contains(line, DNS_DOMAIN_LABEL@)
}

/// The domains found in `resolvectl status` output are those of its last line that holds
/// `DNS Domain:` and not `DNS Servers:`, all the text after that line's first `':'`, trimmed.
/// None are found where no line is such a line.
pub proof fn lemma_status_domains_from_last_labelled_line(ls: Seq<Seq<char>>)
    ensures
        forall|i: int|
            0 <= i < ls.len() && is_domain_line(#[trigger] ls[i]) && (forall|j: int|
                i < j < ls.len() ==> !is_domain_line(ls[j])) ==> status_domains(ls) == Some(
                trim(rest_after_colon(ls[i])),
            ),
        (forall|i: int| 0 <= i < ls.len() ==> !is_domain_line(#[trigger] ls[i])) <==> status_domains(
            ls,
        ) is None,
    decreases ls.len(),
{
    if ls.len() > 0 {
        let front = ls.drop_last();
        lemma_status_domains_from_last_labelled_line(front);
        assert forall|i: int|
            0 <= i < ls.len() && is_domain_line(#[trigger] ls[i]) && (forall|j: int|
                i < j < ls.len() ==> !is_domain_line(ls[j])) implies status_domains(ls) == Some(
            trim(rest_after_colon(ls[i])),
        ) by {
            if i < ls.len() - 1 {
                assert(!is_domain_line(ls[ls.len() - 1]));
                assert(front[i] == ls[i]);
                assert forall|j: int| i < j < front.len() implies !is_domain_line(front[j]) by {
                    assert(front[j] == ls[j]);
                }
            }
        }
        if (forall|i: int| 0 <= i < ls.len() ==> !is_domain_line(#[trigger] ls[i])) {
            assert(!is_domain_line(ls[ls.len() - 1]));
            assert forall|i: int| 0 <= i < front.len() implies !is_domain_line(#[trigger] front[i]) by {
                assert(front[i] == ls[i]);
            }
        }
        if status_domains(ls) is None {
            assert forall|i: int| 0 <= i < ls.len() implies !is_domain_line(#[trigger] ls[i]) by {
                if i < ls.len() - 1 {
                    assert(front[i] == ls[i]);
                }
            }
        }
    }
}

/// A manager that keeps no earlier `/etc/resolv.conf` contents changed nothing, and restores
/// nothing, bind-mounting or not. One that keeps them writes them back in place, or undoes
/// the bind mount and removes its file.
pub proof fn lemma_restore_only_after_backup(saved: Option<Seq<char>>, bind: bool)
    ensures
        resolv_conf_restore_steps(saved, bind).len() > 0 <==> saved is Some,
        saved is Some && !bind ==> resolv_conf_restore_steps(saved, bind) == seq![
            Step::WriteFile { path: RESOLV_CONF@, contents: saved->Some_0 },
        ],
        saved is Some && bind ==> resolv_conf_restore_steps(saved, bind) == seq![
            Step::Run { program: "umount"@, args: seq![RESOLV_CONF@] },
            Step::RemoveFile { path: BOUND_RESOLV_CONF@ },
        ],
{
}

/// The `resolv.conf` text for no servers and no domains is empty; it is the `nameserver`
/// lines followed by the `search` lines; one more domain adds exactly one line
/// `search <domain>` at the end; one more server adds exactly one line
/// `nameserver <server>` after the other `nameserver` lines.
pub proof fn lemma_resolv_conf_text_lines(
    servers: Seq<Seq<char>>,
    search: Seq<Seq<char>>,
    server: Seq<char>,
    domain: Seq<char>,
)
    ensures
        resolv_conf_text(Seq::empty(), Seq::empty()) == Seq::<char>::empty(),
        resolv_conf_text(servers, search) == resolv_conf_text(servers, Seq::empty())
            + resolv_conf_text(Seq::empty(), search),
        resolv_conf_text(servers, search.push(domain)) == resolv_conf_text(servers, search)
            + "search "@ + domain + "\n"@,
        resolv_conf_text(servers.push(server), search) == resolv_conf_text(servers, Seq::empty())
            + "nameserver "@ + server + "\n"@ + resolv_conf_text(Seq::empty(), search),
{
    let e = Seq::<Seq<char>>::empty();
    assert(resolv_conf_text(e, e) =~= Seq::<char>::empty());
    assert(resolv_conf_text(servers, search) =~= resolv_conf_text(servers, e) + resolv_conf_text(
        e,
        search,
    ));
    assert(search.push(domain).drop_last() =~= search);
    assert(servers.push(server).drop_last() =~= servers);
    assert(resolv_conf_text(servers, search.push(domain)) =~= resolv_conf_text(servers, search)
        + "search "@ + domain + "\n"@);
    assert(resolv_conf_text(servers.push(server), search) =~= resolv_conf_text(servers, e)
        + "nameserver "@ + server + "\n"@ + resolv_conf_text(e, search));
}

} // verus!
