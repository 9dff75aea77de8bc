use corplink::config::{
    needs_save, BoolOr, Config, KeyStep, RouteSetting, RoutingMode, DEFAULT_DEVICE_NAME,
    DEFAULT_INTERFACE_NAME,
};
use corplink::digest::{device_id_for, to_lower_hex};
use corplink::dns::VPNDnsMode;

fn blank() -> Config {
    Config {
        company_name: "acme".to_string(),
        username: "alice".to_string(),
        password: None,
        platform: None,
        code: None,
        device_name: None,
        device_id: None,
        public_key: None,
        private_key: None,
        server: None,
        interface_name: None,
        debug_wg: None,
        log_requests: None,
        conf_file: None,
        state: None,
        vpn_server_name: None,
        vpn_select_strategy: None,
        use_vpn_dns: VPNDnsMode::default(),
        routing: RouteSetting::default(),
    }
}

#[test]
fn bool_or_switch() {
    let on: BoolOr<String> = BoolOr::Bool(true);
    let off: BoolOr<String> = BoolOr::Bool(false);
    let value: BoolOr<String> = BoolOr::Value("x".to_string());
    assert!(on.as_bool() && on.is_true() && !on.is_false());
    assert!(!off.as_bool() && !off.is_true() && off.is_false());
    assert!(value.as_bool() && value.is_true() && !value.is_false());
    let d: BoolOr<String> = BoolOr::default();
    assert!(d.is_false());
    assert!(matches!(d, BoolOr::Bool(false)));
}

#[test]
fn bool_or_values() {
    let dflt = "d".to_string();
    let on: BoolOr<String> = BoolOr::Bool(true);
    let off: BoolOr<String> = BoolOr::Bool(false);
    let value: BoolOr<String> = BoolOr::Value("x".to_string());
    assert_eq!(on.get_value(), None);
    assert_eq!(value.get_value(), Some(&"x".to_string()));
    assert_eq!(on.get_value_with_default(&dflt), "d");
    assert_eq!(off.get_value_with_default(&dflt), "d");
    assert_eq!(value.get_value_with_default(&dflt), "x");
}

#[test]
fn bool_or_map_and_refs() {
    let value: BoolOr<String> = BoolOr::Value("abc".to_string());
    assert!(matches!(value.clone().map(|s| s.len()), BoolOr::Value(3)));
    assert!(matches!(BoolOr::<String>::Bool(true).map(|s| s.len()), BoolOr::Bool(true)));
    assert!(matches!(value.as_ref(), BoolOr::Value(s) if s == "abc"));
    assert!(matches!(BoolOr::<String>::Bool(false).as_ref(), BoolOr::Bool(false)));
    assert!(matches!(value.as_deref(), BoolOr::Value("abc")));
    assert!(matches!(BoolOr::<String>::Bool(true).as_deref(), BoolOr::Bool(true)));
}

#[test]
fn bool_or_no_zero() {
    let zero: BoolOr<u32> = BoolOr::Value(0);
    let five: BoolOr<u32> = BoolOr::Value(5);
    let on: BoolOr<u32> = BoolOr::Bool(true);
    let off: BoolOr<u32> = BoolOr::Bool(false);
    assert_eq!(zero.get_value_no_zero(), None);
    assert_eq!(five.get_value_no_zero(), Some(&5));
    assert_eq!(on.get_value_no_zero(), None);
    assert_eq!(zero.get_value_no_zero_with_default(7), None);
    assert_eq!(five.get_value_no_zero_with_default(7), Some(5));
    assert_eq!(on.get_value_no_zero_with_default(7), Some(7));
    assert_eq!(off.get_value_no_zero_with_default(7), None);
    let empty: BoolOr<String> = BoolOr::Value(String::new());
    assert_eq!(empty.get_value_no_zero(), None);
    assert_eq!(BoolOr::Value("f".to_string()).get_value_no_zero_with_default("g".to_string()), Some("f".to_string()));
}

#[test]
fn hex_digits() {
    assert_eq!(to_lower_hex(&[]), "");
    assert_eq!(to_lower_hex(&[0x00, 0x0f, 0xa5, 0xff]), "000fa5ff");
}

#[test]
fn device_id_is_md5_hex() {
    assert_eq!(device_id_for("DollarOS"), format!("{:x}", md5::compute("DollarOS")));
    assert_eq!(device_id_for(""), "d41d8cd98f00b204e9800998ecf8427e");
    assert_eq!(device_id_for("abc"), "900150983cd24fb0d6963f7d28e17f72");
}

#[test]
fn complete_fills_defaults() {
    let mut c = blank();
    assert!(c.complete("/etc/corplink/config.json"));
    assert_eq!(c.conf_file.as_deref(), Some("/etc/corplink/config.json"));
    assert_eq!(c.interface_name.as_deref(), Some(DEFAULT_INTERFACE_NAME));
    assert_eq!(c.interface_name.as_deref(), Some("corplink"));
    assert_eq!(c.device_name.as_deref(), Some(DEFAULT_DEVICE_NAME));
    assert_eq!(c.device_id, Some(format!("{:x}", md5::compute("DollarOS"))));
    // A second pass fills in nothing.
    assert!(!c.complete("other.json"));
    assert_eq!(c.conf_file.as_deref(), Some("other.json"));
    assert_eq!(c.device_id, Some(format!("{:x}", md5::compute("DollarOS"))));
}

#[test]
fn complete_keeps_given_values() {
    let mut c = blank();
    c.interface_name = Some("wg9".to_string());
    c.device_name = Some("laptop".to_string());
    assert!(c.complete("c.json"));
    assert_eq!(c.interface_name.as_deref(), Some("wg9"));
    assert_eq!(c.device_id, Some(format!("{:x}", md5::compute("laptop"))));
    let mut d = blank();
    d.interface_name = Some("i".to_string());
    d.device_name = Some("n".to_string());
    d.device_id = Some("id".to_string());
    assert!(!d.complete("c.json"));
    assert_eq!(d.device_id.as_deref(), Some("id"));
}

#[test]
fn key_steps() {
    let mut c = blank();
    assert!(matches!(c.key_step(), KeyStep::GenerateBoth));
    c.private_key = Some("priv".to_string());
    assert!(matches!(c.key_step(), KeyStep::DerivePublic { ref private_key } if private_key == "priv"));
    c.set_public_key("pub".to_string());
    assert!(matches!(c.key_step(), KeyStep::Keep));
    let mut d = blank();
    d.set_keypair("p".to_string(), "q".to_string());
    assert_eq!(d.public_key.as_deref(), Some("p"));
    assert_eq!(d.private_key.as_deref(), Some("q"));
    assert!(matches!(d.key_step(), KeyStep::Keep));
}

#[test]
fn route_defaults() {
    let r = RouteSetting::default();
    assert!(matches!(r.mode, RoutingMode::Split));
    assert!(!r.include_dynamic_domain_route_split);
    assert_eq!(RoutingMode::default(), RoutingMode::Split);
}

#[test]
fn bool_or_map_laws() {
    let samples: Vec<BoolOr<u32>> = vec![BoolOr::Bool(true), BoolOr::Bool(false), BoolOr::Value(7)];
    for x in samples {
        let same = x.clone().map(|v| v);
        assert_eq!(format!("{:?}", same), format!("{:?}", x));
        let twice = x.clone().map(|v| v + 1).map(|v| v * 2);
        let direct = x.clone().map(|v| (v + 1) * 2);
        assert_eq!(format!("{:?}", twice), format!("{:?}", direct));
        assert_eq!(x.clone().map(|v| v + 1).as_bool(), x.as_bool());
    }
}

#[test]
fn save_after_load() {
    assert!(!needs_save(false, &KeyStep::Keep));
    assert!(needs_save(true, &KeyStep::Keep));
    assert!(needs_save(false, &KeyStep::GenerateBoth));
    assert!(needs_save(false, &KeyStep::DerivePublic { private_key: "k".to_string() }));
}

#[test]
fn bool_or_no_zero_strings() {
    assert_eq!(BoolOr::Value(String::new()).get_value_no_zero_with_default("d".to_string()), None);
    assert_eq!(
        BoolOr::<String>::Bool(true).get_value_no_zero_with_default("d".to_string()),
        Some("d".to_string())
    );
    assert_eq!(
        BoolOr::Value("x".to_string()).get_value_no_zero_with_default("d".to_string()),
        Some("x".to_string())
    );
    let x: BoolOr<String> = BoolOr::Value("x".to_string());
    assert_eq!(x.get_value_no_zero(), Some(&"x".to_string()));
}
