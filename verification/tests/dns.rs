use corplink::dns::linux::{ResolvConfDNSManager, ResolvectlDNSManager};
use corplink::dns::{DNSManagerTrait, DnsAction, DnsManager, NopDNSManager, VPNDnsMode};

fn s(x: &str) -> String {
    x.to_string()
}

fn strings(xs: &[&str]) -> Vec<String> {
    xs.iter().map(|x| x.to_string()).collect()
}

#[test]
fn test_vpn_dns_mode_default() {
    let mode = VPNDnsMode::default();
    assert!(matches!(mode, VPNDnsMode::Off));
}

#[test]
fn mode_predicates() {
    assert!(VPNDnsMode::Off.is_off());
    assert!(!VPNDnsMode::Off.is_auto());
    assert!(VPNDnsMode::Auto.is_auto());
    assert!(!VPNDnsMode::Auto.is_off());
    assert!(!VPNDnsMode::Resolvectl.is_off());
    assert!(!VPNDnsMode::ResolvConf.is_auto());
}

#[test]
fn mode_selects_manager() {
    assert!(matches!(VPNDnsMode::Off.get_dns_manager(), DnsManager::Nop(_)));
    assert!(matches!(VPNDnsMode::Resolvectl.get_dns_manager(), DnsManager::Resolvectl(_)));
    let servers = vec!["10.0.0.1"];
    let none: Vec<&str> = vec![];
    // Auto and ResolvConfBind bind-mount; ResolvConf writes in place.
    for mode in [VPNDnsMode::Auto, VPNDnsMode::ResolvConfBind] {
        let m = mode.get_dns_manager();
        assert!(matches!(m, DnsManager::ResolvConf(_)));
        let plan = m.set_dns(&servers, &none);
        assert_eq!(plan.len(), 4);
        assert!(matches!(plan[3], DnsAction::Run { .. }));
    }
    let m = VPNDnsMode::ResolvConf.get_dns_manager();
    let plan = m.set_dns(&servers, &none);
    assert_eq!(plan.len(), 2);
}

#[test]
fn nop_manager_does_nothing() {
    let mut m = NopDNSManager::new();
    m.with_interface(s("tun0"));
    assert!(m.set_dns(&vec!["1.1.1.1"], &vec!["a.example"]).is_empty());
    m.record(s("anything"));
    assert!(m.restore_dns().is_empty());
}

#[test]
fn resolv_conf_in_place() {
    let mut m = ResolvConfDNSManager::new1(false);
    let plan = m.set_dns(&vec!["10.0.0.1", "10.0.0.2"], &vec!["corp.example"]);
    let text = s("nameserver 10.0.0.1\nnameserver 10.0.0.2\nsearch corp.example\n");
    assert_eq!(
        plan,
        vec![
            DnsAction::Backup { path: s("/etc/resolv.conf") },
            DnsAction::WriteFile { path: s("/etc/resolv.conf"), contents: text.clone() },
        ]
    );
    assert!(m.restore_dns().is_empty());
    m.record(s("nameserver 192.168.1.1\n"));
    // The backup is taken once; later reads do not replace it.
    let plan = m.set_dns(&vec!["10.0.0.1", "10.0.0.2"], &vec!["corp.example"]);
    assert_eq!(plan, vec![DnsAction::WriteFile { path: s("/etc/resolv.conf"), contents: text }]);
    m.record(s("nameserver 10.0.0.1\n"));
    assert_eq!(
        m.restore_dns(),
        vec![DnsAction::WriteFile {
            path: s("/etc/resolv.conf"),
            contents: s("nameserver 192.168.1.1\n")
        }]
    );
}

#[test]
fn resolv_conf_bind_mounted() {
    let mut m = ResolvConfDNSManager::new1(true);
    let plan = m.set_dns(&vec!["10.0.0.1"], &vec![]);
    assert_eq!(
        plan,
        vec![
            DnsAction::Backup { path: s("/etc/resolv.conf") },
            DnsAction::CreateDirAll { path: s("/run/corplink") },
            DnsAction::WriteFile {
                path: s("/run/corplink/resolv.conf"),
                contents: s("nameserver 10.0.0.1\n")
            },
            DnsAction::Run {
                program: s("mount"),
                args: strings(&["--bind", "/run/corplink/resolv.conf", "/etc/resolv.conf"])
            },
        ]
    );
    m.record(s("old"));
    assert_eq!(
        m.restore_dns(),
        vec![
            DnsAction::Run { program: s("umount"), args: strings(&["/etc/resolv.conf"]) },
            DnsAction::RemoveFile { path: s("/run/corplink/resolv.conf") },
        ]
    );
}

#[test]
fn resolv_conf_default_is_in_place() {
    let m = <ResolvConfDNSManager as DNSManagerTrait>::new();
    let plan = m.set_dns(&vec!["10.0.0.1"], &vec![]);
    assert_eq!(plan.len(), 2);
}

#[test]
fn no_servers_no_steps() {
    let empty: Vec<&str> = vec![];
    let m = ResolvConfDNSManager::new1(true);
    assert!(m.set_dns(&empty, &vec!["corp.example"]).is_empty());
    let mut r = ResolvectlDNSManager::new();
    r.with_interface(s("corplink"));
    assert!(r.set_dns(&empty, &vec!["corp.example"]).is_empty());
}

const STATUS: &str = "Link 5 (corplink)\n    Current Scopes: DNS\n         Protocols: +DefaultRoute\n       DNS Servers: 192.168.1.1  192.168.1.2\r\n        DNS Domain: lan home.example\n";

#[test]
fn resolvectl_set_and_restore() {
    let mut m = ResolvectlDNSManager::new();
    // Without an interface nothing is done.
    assert!(m.set_dns(&vec!["10.0.0.1"], &vec![]).is_empty());
    m.with_interface(s("corplink"));
    let plan = m.set_dns(&vec!["10.0.0.1", "10.0.0.2"], &vec!["corp.example"]);
    assert_eq!(
        plan,
        vec![
            DnsAction::Capture { program: s("resolvectl"), args: strings(&["status", "corplink"]) },
            DnsAction::Run {
                program: s("resolvectl"),
                args: strings(&["dns", "corplink", "10.0.0.1", "10.0.0.2"])
            },
            DnsAction::Run {
                program: s("resolvectl"),
                args: strings(&["domain", "corplink", "corp.example"])
            },
        ]
    );
    let plan = m.set_dns(&vec!["10.0.0.1"], &vec![]);
    assert_eq!(plan.len(), 2);
    assert!(m.restore_dns().is_empty());
    m.record(s(STATUS));
    // A later status output does not replace what was found first.
    m.record(s("       DNS Servers: 10.0.0.1\n"));
    assert_eq!(
        m.restore_dns(),
        vec![
            DnsAction::Run {
                program: s("resolvectl"),
                args: strings(&["dns", "corplink", "192.168.1.1", "192.168.1.2"])
            },
            DnsAction::Run {
                program: s("resolvectl"),
                args: strings(&["domain", "corplink", "lan", "home.example"])
            },
        ]
    );
}

#[test]
fn resolvectl_status_without_dns_lines() {
    let mut m = ResolvectlDNSManager::new();
    m.with_interface(s("corplink"));
    m.record(s("Link 5 (corplink)\n    Current Scopes: none\n"));
    assert!(m.restore_dns().is_empty());
    // Nothing was found, so a later output is still read.
    m.record(s("DNS Servers: 1.1.1.1\n"));
    assert_eq!(
        m.restore_dns(),
        vec![DnsAction::Run {
            program: s("resolvectl"),
            args: strings(&["dns", "corplink", "1.1.1.1"])
        }]
    );
}

#[test]
fn resolvectl_empty_values_not_restored() {
    let mut m = ResolvectlDNSManager::new();
    m.with_interface(s("corplink"));
    m.record(s("DNS Servers:   \nDNS Domain: corp.example\n"));
    assert_eq!(
        m.restore_dns(),
        vec![DnsAction::Run {
            program: s("resolvectl"),
            args: strings(&["domain", "corplink", "corp.example"])
        }]
    );
}

#[test]
fn dns_manager_delegates() {
    let mut m = VPNDnsMode::Resolvectl.get_dns_manager();
    m.with_interface(s("wg0"));
    m.record(s(STATUS));
    assert_eq!(m.restore_dns().len(), 2);
    let mut n = <DnsManager as DNSManagerTrait>::new();
    assert!(matches!(n, DnsManager::Nop(_)));
    n.record(s("x"));
    assert!(n.restore_dns().is_empty());
}

#[test]
fn interface_ignored_where_unused() {
    let mut m = ResolvConfDNSManager::new1(false);
    m.record(s("saved"));
    m.with_interface(s("wg0"));
    assert_eq!(
        m.restore_dns(),
        vec![DnsAction::WriteFile { path: s("/etc/resolv.conf"), contents: s("saved") }]
    );
    let mut n = VPNDnsMode::ResolvConfBind.get_dns_manager();
    n.with_interface(s("wg0"));
    assert_eq!(n.set_dns(&vec!["10.0.0.1"], &vec![]).len(), 4);
}

#[test]
fn resolvectl_keeps_ipv6_servers_whole() {
    let mut m = ResolvectlDNSManager::new();
    m.with_interface(s("corplink"));
    m.record(s("  DNS Servers: 2001:db8::1 10.0.0.1\n  DNS Domain: corp.example\n"));
    // Any number of later outputs leave what was found first.
    m.record(s("  DNS Servers: 10.9.9.9\n"));
    m.record(s("  DNS Domain: other.example\n"));
    assert_eq!(
        m.restore_dns(),
        vec![
            DnsAction::Run {
                program: s("resolvectl"),
                args: strings(&["dns", "corplink", "2001:db8::1", "10.0.0.1"])
            },
            DnsAction::Run {
                program: s("resolvectl"),
                args: strings(&["domain", "corplink", "corp.example"])
            },
        ]
    );
}
