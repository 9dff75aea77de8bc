//! DNS management: which manager a DNS mode selects, and the steps each manager takes to
//! set and restore the system's DNS settings.
//!
//! A manager decides; it performs nothing itself. `set_dns` and `restore_dns` return the
//! steps to take, in order, and a step that reads something hands what it read back to the
//! manager through `record`.

pub mod linux;

use vstd::prelude::*;

use crate::text::views;
use self::linux::{
    found_after, kept_after, resolv_conf_restore_steps, resolv_conf_set_steps,
    resolvectl_restore_steps, resolvectl_set_steps, ResolvConfDNSManager, ResolvectlDNSManager,
};

verus! {

/// One step of changing or restoring the system's DNS settings.
#[derive(Clone, Debug, PartialEq, Eq)]
pub enum DnsAction {
    /// Run `program` with `args` and wait for it; only a failure to start it is an error.
    Run { program: String, args: Vec<String> },
    /// Run `program` with `args` and hand its standard output to `record`.
    Capture { program: String, args: Vec<String> },
    /// Read the file at `path` and hand its contents to `record`.
    Backup { path: String },
    /// Create the directory `path` and its parents; a failure is ignored.
    CreateDirAll { path: String },
    /// Write `contents` to the file at `path`.
    WriteFile { path: String, contents: String },
    /// Remove the file at `path`.
    RemoveFile { path: String },
}

/// A step, with its texts as character sequences.
pub enum Step {
    Run { program: Seq<char>, args: Seq<Seq<char>> },
    Capture { program: Seq<char>, args: Seq<Seq<char>> },
    Backup { path: Seq<char> },
    CreateDirAll { path: Seq<char> },
    WriteFile { path: Seq<char>, contents: Seq<char> },
    RemoveFile { path: Seq<char> },
}

impl View for DnsAction {
    type V = Step;

    open spec fn view(&self) -> Step {
        match self {
            DnsAction::Run { program, args } => Step::Run { program: program@, args: views(args@) },
            DnsAction::Capture { program, args } => Step::Capture {
                program: program@,
                args: views(args@),
            },
            DnsAction::Backup { path } => Step::Backup { path: path@ },
            DnsAction::CreateDirAll { path } => Step::CreateDirAll { path: path@ },
            DnsAction::WriteFile { path, contents } => Step::WriteFile {
                path: path@,
                contents: contents@,
            },
            DnsAction::RemoveFile { path } => Step::RemoveFile { path: path@ },
        }
    }
}

/// The steps of a plan, with their texts as character sequences.
pub open spec fn steps(plan: Seq<DnsAction>) -> Seq<Step> {
    plan.map_values(|a: DnsAction| a@)
}

/// The texts of a list of string slices.
pub open spec fn str_views(v: Seq<&str>) -> Seq<Seq<char>> {
    v.map_values(|s: &str| s@)
}

/// Owned copies of `v`.
pub fn to_strings(v: &Vec<&str>) -> (r: Vec<String>)
    ensures
        views(r@) == str_views(v@),
{
    let mut r: Vec<String> = Vec::new();
    let mut i: usize = 0;
    while i < v.len()
        invariant
            i <= v@.len(),
            views(r@) == str_views(v@.take(i as int)),
        decreases v@.len() - i,
    {
        let ghost before = views(r@);
        r.push(v[i].to_owned());
        assert(views(r@) =~= before.push(v@[i as int]@));
        i = i + 1;
        assert(str_views(v@.take(i as int)) =~= str_views(v@.take(i - 1)).push(v@[i - 1]@));
    }
    assert(v@.take(i as int) =~= v@);
    r
}

/// What a DNS manager does: it says which steps set and restore the DNS settings, and keeps
/// what a reading step hands back.
pub trait DNSManagerTrait: Sized {
    /// A manager in its initial state.
    fn new() -> Self;

    /// The steps that make `dns_servers` and `dns_search` the system's DNS settings.
    fn set_dns(&self, dns_servers: &Vec<&str>, dns_search: &Vec<&str>) -> Vec<DnsAction>;

    /// The steps that put back the DNS settings found before `set_dns`.
    fn restore_dns(&self) -> Vec<DnsAction>;

    /// Takes what a `Capture` or `Backup` step read.
    fn record(&mut self, output: String);

    /// Sets the network interface the settings belong to; managers that do not work per
    /// interface ignore it.
    fn with_interface(&mut self, interface: String) {
    }
}

/// The manager that leaves the DNS settings alone.
pub struct NopDNSManager;

impl DNSManagerTrait for NopDNSManager {
    fn new() -> Self {
        NopDNSManager
    }

    fn set_dns(&self, _dns_servers: &Vec<&str>, _dns_search: &Vec<&str>) -> (r: Vec<DnsAction>)
        ensures
            r@.len() == 0,
    {
        Vec::new()
    }

    fn restore_dns(&self) -> (r: Vec<DnsAction>)
        ensures
            r@.len() == 0,
    {
        Vec::new()
    }

    fn record(&mut self, _output: String)
        ensures
            *final(self) == *old(self),
    {
    }

    /// The interface is of no use to this manager: it stays as it was.
    fn with_interface(&mut self, _interface: String)
        ensures
            *final(self) == *old(self),
    {
    }
}

/// How the VPN's DNS servers are put in place.
#[derive(Clone, Debug, PartialEq, Eq, Structural)]
pub enum VPNDnsMode {
    Off,
    Auto,
    ResolvConf,
    ResolvConfBind,
    Resolvectl,
}

impl Default for VPNDnsMode {
    fn default() -> (r: Self)
        ensures
            r == VPNDnsMode::Off,
    {
        VPNDnsMode::Off
    }
}

/// One of the DNS managers.
pub enum DnsManager {
    Nop(NopDNSManager),
    ResolvConf(ResolvConfDNSManager),
    Resolvectl(ResolvectlDNSManager),
}

impl VPNDnsMode {
    /// The manager this mode selects: none for `Off`; `/etc/resolv.conf` bind-mounted over
    /// for `Auto` and `ResolvConfBind`; `/etc/resolv.conf` rewritten for `ResolvConf`;
    /// `resolvectl` for `Resolvectl`.
    pub fn get_dns_manager(&self) -> (m: DnsManager)
        ensures
            match self {
                VPNDnsMode::Off => m is Nop,
                VPNDnsMode::Auto | VPNDnsMode::ResolvConfBind => m matches DnsManager::ResolvConf(
                    r,
                ) && r.bind() && r.saved() is None,
                VPNDnsMode::ResolvConf => m matches DnsManager::ResolvConf(r) && !r.bind()
                    && r.saved() is None,
                VPNDnsMode::Resolvectl => m matches DnsManager::Resolvectl(r) && r.is_fresh(),
            },
    {
        match self {
            VPNDnsMode::Off => DnsManager::Nop(NopDNSManager::new()),
            VPNDnsMode::Auto | VPNDnsMode::ResolvConfBind => DnsManager::ResolvConf(
                ResolvConfDNSManager::new1(true),
            ),
            VPNDnsMode::ResolvConf => DnsManager::ResolvConf(ResolvConfDNSManager::new1(false)),
            VPNDnsMode::Resolvectl => DnsManager::Resolvectl(ResolvectlDNSManager::new()),
        }
    }

    /// Whether the mode is `Off`.
    pub fn is_off(&self) -> (b: bool)
        ensures
            b == (self == VPNDnsMode::Off),
    {
        matches!(self, VPNDnsMode::Off)
    }

    /// Whether the mode is `Auto`.
    pub fn is_auto(&self) -> (b: bool)
        ensures
            b == (self == VPNDnsMode::Auto),
    {
        matches!(self, VPNDnsMode::Auto)
    }
}


impl DNSManagerTrait for DnsManager {
    fn new() -> (m: Self)
        ensures
            m is Nop,
    {
        DnsManager::Nop(NopDNSManager)
    }

    fn set_dns(&self, dns_servers: &Vec<&str>, dns_search: &Vec<&str>) -> (r: Vec<DnsAction>)
        ensures
            match self {
                DnsManager::Nop(_) => r@.len() == 0,
                DnsManager::ResolvConf(m) => steps(r@) == resolv_conf_set_steps(
                    m.saved(),
                    m.bind(),
                    str_views(dns_servers@),
                    str_views(dns_search@),
                ),
                DnsManager::Resolvectl(m) => steps(r@) == resolvectl_set_steps(
                    m.iface(),
                    str_views(dns_servers@),
                    str_views(dns_search@),
                ),
            },
    {
        match self {
            DnsManager::Nop(m) => m.set_dns(dns_servers, dns_search),
            DnsManager::ResolvConf(m) => m.set_dns(dns_servers, dns_search),
            DnsManager::Resolvectl(m) => m.set_dns(dns_servers, dns_search),
        }
    }

    fn restore_dns(&self) -> (r: Vec<DnsAction>)
        ensures
            match self {
                DnsManager::Nop(_) => r@.len() == 0,
                DnsManager::ResolvConf(m) => steps(r@) == resolv_conf_restore_steps(
                    m.saved(),
                    m.bind(),
                ),
                DnsManager::Resolvectl(m) => steps(r@) == resolvectl_restore_steps(
                    m.iface(),
                    m.found_dns(),
                    m.found_search(),
                ),
            },
    {
        match self {
            DnsManager::Nop(m) => m.restore_dns(),
            DnsManager::ResolvConf(m) => m.restore_dns(),
            DnsManager::Resolvectl(m) => m.restore_dns(),
        }
    }

    fn record(&mut self, output: String)
        ensures
            *old(self) is Nop ==> *final(self) is Nop,
            *old(self) matches DnsManager::ResolvConf(a) ==> *final(self) matches DnsManager::ResolvConf(
                b,
            ) && b.saved() == kept_after(a.saved(), output@) && b.bind() == a.bind(),
            *old(self) matches DnsManager::Resolvectl(a) ==> *final(self) matches DnsManager::Resolvectl(
                b,
            ) && b.iface() == a.iface() && b.found_dns() == found_after(
                a.found_dns(),
                a.found_search(),
                output@,
            ).0 && b.found_search() == found_after(a.found_dns(), a.found_search(), output@).1,
    {
        match self {
            DnsManager::Nop(m) => m.record(output),
            DnsManager::ResolvConf(m) => m.record(output),
            DnsManager::Resolvectl(m) => m.record(output),
        }
    }

    fn with_interface(&mut self, interface: String)
        ensures
            *old(self) is Nop ==> *final(self) == *old(self),
            *old(self) is ResolvConf ==> *final(self) == *old(self),
            *old(self) matches DnsManager::Resolvectl(a) ==> *final(self) matches DnsManager::Resolvectl(
                b,
            ) && b.iface() == interface@ && b.found_dns() == a.found_dns() && b.found_search()
                == a.found_search(),
    {
        match self {
            DnsManager::Nop(m) => m.with_interface(interface),
            DnsManager::ResolvConf(m) => m.with_interface(interface),
            DnsManager::Resolvectl(m) => m.with_interface(interface),
        }
    }
}

} // verus!
