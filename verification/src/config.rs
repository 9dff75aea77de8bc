//! The client's configuration: what a configuration file holds, and how the values it
//! leaves out are filled in.

use vstd::prelude::*;
use vstd::std_specs::cmp::PartialEqSpec;

use crate::digest::{device_id_for, lower_hex, md5_digest};
use crate::dns::VPNDnsMode;
use crate::text::opt_view;

verus! {

/// Either a plain switch or a value, which counts as switched on.
#[derive(Clone, Debug)]
pub enum BoolOr<T> {
    Bool(bool),
    Value(T),
}

impl<T> Default for BoolOr<T> {
    fn default() -> (r: Self)
        ensures
            r == BoolOr::<T>::Bool(false),
    {
        BoolOr::Bool(false)
    }
}

impl<T> BoolOr<T> {
    /// Whether the setting is switched on: `true`, or any value.
    pub open spec fn is_on(&self) -> bool {
        self matches BoolOr::Bool(true) || self is Value
    }

    /// Whether the setting is switched on: `true`, or any value.
    pub fn as_bool(&self) -> (b: bool)
        ensures
            b == self.is_on(),
    {
        match self {
            BoolOr::Bool(b) => *b,
            BoolOr::Value(_) => true,
        }
    }

    /// Same as `as_bool`.
    pub fn is_true(&self) -> (b: bool)
        ensures
            b == self.is_on(),
    {
        self.as_bool()
    }

    /// The negation of `as_bool`.
    pub fn is_false(&self) -> (b: bool)
        ensures
            b == !self.is_on(),
    {
        !self.as_bool()
    }

    /// The value, where there is one.
    pub fn get_value(&self) -> (r: Option<&T>)
        ensures
            match self {
                BoolOr::Value(v) => r == Some(v),
                BoolOr::Bool(_) => r is None,
            },
    {
        match self {
            BoolOr::Value(v) => Some(v),
            _ => None,
        }
    }

    /// The value, where there is one, else `default`.
    pub fn get_value_with_default<'a>(&'a self, default: &'a T) -> (r: &'a T)
        ensures
            match self {
                BoolOr::Value(v) => r == v,
                BoolOr::Bool(_) => r == default,
            },
    {
        match self {
            BoolOr::Value(v) => v,
            BoolOr::Bool(true) => default,
            _ => default,
        }
    }

    /// Applies `f` to the value, where there is one; a switch stays as it is.
    pub fn map<E>(self, f: impl FnOnce(T) -> E) -> (r: BoolOr<E>)
        requires
            self matches BoolOr::Value(v) ==> call_requires(f, (v,)),
        ensures
            mapped_by(self, r, f),
            r.is_on() == self.is_on(),
    {
        match self {
            BoolOr::Bool(b) => BoolOr::Bool(b),
            BoolOr::Value(v) => BoolOr::Value(f(v)),
        }
    }

    /// A view of the setting that borrows its value.
    pub fn as_ref(&self) -> (r: BoolOr<&T>)
        ensures
            match self {
                BoolOr::Bool(b) => r == BoolOr::<&T>::Bool(*b),
                BoolOr::Value(v) => r == BoolOr::<&T>::Value(v),
            },
            r.is_on() == self.is_on(),
    {
        match self {
            BoolOr::Bool(b) => BoolOr::Bool(*b),
            BoolOr::Value(v) => BoolOr::Value(v),
        }
    }

    /// A view of the setting that borrows what its value dereferences to.
    pub fn as_deref(&self) -> (r: BoolOr<&T::Target>) where T: core::ops::Deref
        ensures
            match self {
                BoolOr::Bool(b) => r == BoolOr::<&T::Target>::Bool(*b),
                BoolOr::Value(v) => r matches BoolOr::Value(t) && call_ensures(
                    T::deref,
                    (v,),
                    t,
                ),
            },
            r.is_on() == self.is_on(),
    {
        match self {
            BoolOr::Bool(b) => BoolOr::Bool(*b),
            BoolOr::Value(v) => BoolOr::Value(v.deref()),
        }
    }
}


impl<T: PartialEq + Default> BoolOr<T> {
    /// The value, where there is one and it is not `==` to `T::default()`.
    pub fn get_value_no_zero(&self) -> (r: Option<&T>)
        ensures
            r matches Some(x) ==> self matches BoolOr::Value(v) && x == v,
            self is Bool ==> r is None,
            T::obeys_eq_spec() ==> (self matches BoolOr::Value(v) ==> exists|d: T|
                #[trigger] call_ensures(T::default, (), d) && (r is Some <==> !v.eq_spec(&d))),
            self matches BoolOr::Value(v) ==> exists|d: T, b: bool|
                #[trigger] call_ensures(T::default, (), d) && #[trigger] call_ensures(T::eq, (&v, &d), b) && (r is Some <==> !b),
    {
        match self {
            BoolOr::Value(v) => {
                let make_default = T::default;
                let d = make_default();
                let same = T::eq;
                if !same(v, &d) {
                    Some(v)
                } else {
                    None
                }
            },
            _ => None,
        }
    }

    /// The value where there is one and it is not `==` to `T::default()`; `default` where the
    /// setting is `true`; else nothing.
    pub fn get_value_no_zero_with_default(self, default: T) -> (r: Option<T>)
        ensures
            self matches BoolOr::Bool(b) ==> r == (if b { Some(default) } else { None::<T> }),
            self matches BoolOr::Value(v) ==> (r is None || r == Some(v)),
            T::obeys_eq_spec() ==> (self matches BoolOr::Value(v) ==> exists|d: T|
                #[trigger] call_ensures(T::default, (), d) && (r is Some <==> !v.eq_spec(&d))),
            self matches BoolOr::Value(v) ==> exists|d: T, b: bool|
                #[trigger] call_ensures(T::default, (), d) && #[trigger] call_ensures(T::eq, (&v, &d), b) && (r is Some <==> !b),
    {
        match self {
            BoolOr::Value(v) => {
                let make_default = T::default;
                let d = make_default();
                let same = T::eq;
                if !same(&v, &d) {
                    Some(v)
                } else {
                    None
                }
            },
            BoolOr::Bool(true) => Some(default),
            _ => None,
        }
    }
}


/// The device name used where the configuration names none.
pub const DEFAULT_DEVICE_NAME: &'static str = "DollarOS";

/// The network interface name used where the configuration names none.
pub const DEFAULT_INTERFACE_NAME: &'static str = "corplink";

pub const PLATFORM_LDAP: &'static str = "ldap";

pub const PLATFORM_CORPLINK: &'static str = "feilian";

pub const PLATFORM_OIDC: &'static str = "OIDC";

/// Also known as feishu.
pub const PLATFORM_LARK: &'static str = "lark";

pub const PLATFORM_WEIXIN: &'static str = "weixin";

/// Also known as dingding.
pub const PLATFORM_DING_TALK: &'static str = "dingtalk";

pub const PLATFORM_AAD: &'static str = "aad";

pub const STRATEGY_LATENCY: &'static str = "latency";

pub const STRATEGY_DEFAULT: &'static str = "default";

/// The client's configuration, as its configuration file holds it.
#[derive(Clone)]
pub struct Config {
    pub company_name: String,
    pub username: String,
    pub password: Option<String>,
    pub platform: Option<String>,
    pub code: Option<String>,
    pub device_name: Option<String>,
    pub device_id: Option<String>,
    pub public_key: Option<String>,
    pub private_key: Option<String>,
    pub server: Option<String>,
    pub interface_name: Option<String>,
    pub debug_wg: Option<bool>,
    pub log_requests: Option<BoolOr<String>>,
    /// The file the configuration was read from; it is never written to that file.
    pub conf_file: Option<String>,
    /// The saved session state, as its JSON text.
    pub state: Option<String>,
    pub vpn_server_name: Option<String>,
    pub vpn_select_strategy: Option<String>,
    pub use_vpn_dns: VPNDnsMode,
    pub routing: RouteSetting,
}

/// How traffic is routed through the VPN.
#[derive(Clone, Debug)]
pub struct RouteSetting {
    pub mode: RoutingMode,
    /// Only for `Split` mode.
    pub include_dynamic_domain_route_split: bool,
}

impl Default for RouteSetting {
    fn default() -> (r: Self)
        ensures
            r.mode == RoutingMode::Split,
            !r.include_dynamic_domain_route_split,
    {
        RouteSetting { mode: RoutingMode::Split, include_dynamic_domain_route_split: false }
    }
}

/// Whether only some traffic, or all of it, goes through the VPN.
#[derive(Clone, Debug, PartialEq, Eq, Structural)]
pub enum RoutingMode {
    Split,
    Full,
}

impl Default for RoutingMode {
    fn default() -> (r: Self)
        ensures
            r == RoutingMode::Split,
    {
        RoutingMode::Split
    }
}

/// A WireGuard configuration, with the settings the VPN service adds.
#[derive(Clone)]
pub struct WgConf {
    pub address: String,
    pub address6: String,
    pub peer_address: String,
    pub mtu: u32,
    pub public_key: String,
    pub private_key: String,
    pub peer_key: String,
    pub route: Vec<String>,
    pub dns: String,
    pub protocol: i32,
}

/// What is to be done about the WireGuard keys of a configuration.
pub enum KeyStep {
    /// Both keys are there.
    Keep,
    /// Only the private key is there: the public key is derived from it.
    DerivePublic { private_key: String },
    /// No private key is there: a new key pair is generated.
    GenerateBoth,
}

/// `o`'s text where `o` is there, else `default`.
pub open spec fn or_default(o: Option<Seq<char>>, default: Seq<char>) -> Seq<char> {
    match o {
        Some(x) => x,
        None => default,
    }
}

/// Whether loading leaves something of `c` to fill in: the interface name, the device name or
/// the device identifier.
pub open spec fn needs_completion(c: Config) -> bool {
    c.interface_name is None || c.device_name is None || c.device_id is None
}

/// `after` agrees with `before` on every field but the file name, the interface name, the
/// device name and the device identifier.
pub open spec fn same_but_identity(before: Config, after: Config) -> bool {
    &&& after.company_name == before.company_name
    &&& after.username == before.username
    &&& after.password == before.password
    &&& after.platform == before.platform
    &&& after.code == before.code
    &&& after.public_key == before.public_key
    &&& after.private_key == before.private_key
    &&& after.server == before.server
    &&& after.debug_wg == before.debug_wg
    &&& after.log_requests == before.log_requests
    &&& after.state == before.state
    &&& after.vpn_server_name == before.vpn_server_name
    &&& after.vpn_select_strategy == before.vpn_select_strategy
    &&& after.use_vpn_dns == before.use_vpn_dns
    &&& after.routing == before.routing
}

/// `after` is `before` read from `file` and completed: it records `file`; the interface name,
/// the device name and the device identifier it lacked are the defaults, the identifier
/// being the lower-case hexadecimal MD5 digest of the device name; all else is as it was.
pub open spec fn completed_from(before: Config, after: Config, file: Seq<char>) -> bool {
    let device = or_default(opt_view(before.device_name), DEFAULT_DEVICE_NAME@);
    &&& opt_view(after.conf_file) == Some(file)
    &&& opt_view(after.interface_name) == Some(
        or_default(opt_view(before.interface_name), DEFAULT_INTERFACE_NAME@),
    )
    &&& opt_view(after.device_name) == Some(device)
    &&& opt_view(after.device_id) == Some(
        or_default(opt_view(before.device_id), lower_hex(md5_digest(device))),
    )
    &&& before.interface_name is Some ==> after.interface_name == before.interface_name
    &&& before.device_name is Some ==> after.device_name == before.device_name
    &&& before.device_id is Some ==> after.device_id == before.device_id
    &&& same_but_identity(before, after)
}

/// `after` agrees with `before` on every field but the two keys.
pub open spec fn same_but_keys(before: Config, after: Config) -> bool {
    &&& after.company_name == before.company_name
    &&& after.username == before.username
    &&& after.password == before.password
    &&& after.platform == before.platform
    &&& after.code == before.code
    &&& after.device_name == before.device_name
    &&& after.device_id == before.device_id
    &&& after.server == before.server
    &&& after.interface_name == before.interface_name
    &&& after.debug_wg == before.debug_wg
    &&& after.log_requests == before.log_requests
    &&& after.conf_file == before.conf_file
    &&& after.state == before.state
    &&& after.vpn_server_name == before.vpn_server_name
    &&& after.vpn_select_strategy == before.vpn_select_strategy
    &&& after.use_vpn_dns == before.use_vpn_dns
    &&& after.routing == before.routing
}

/// Whether `c` holds both WireGuard keys.
pub open spec fn has_both_keys(c: Config) -> bool {
    c.private_key is Some && c.public_key is Some
}

impl Config {
    /// Records that the configuration was read from `file` and fills in the interface name,
    /// device name and device identifier it lacks. Returns whether anything was filled in,
    /// that is whether the file is to be written again.
    pub fn complete(&mut self, file: &str) -> (changed: bool)
        ensures
            completed_from(*old(self), *final(self), file@),
            changed == needs_completion(*old(self)),
            !needs_completion(*final(self)),
    {
        self.conf_file = Some(file.to_owned());
        let mut changed = false;
        if self.interface_name.is_none() {
            self.interface_name = Some(DEFAULT_INTERFACE_NAME.to_owned());
            changed = true;
        }
        if self.device_name.is_none() {
            self.device_name = Some(DEFAULT_DEVICE_NAME.to_owned());
            changed = true;
        }
        if self.device_id.is_none() {
            let id = device_id_for(self.device_name.as_ref().unwrap().as_str());
            self.device_id = Some(id);
            changed = true;
        }
        changed
    }

    /// What is to be done about the WireGuard keys: nothing where both are there; derive the
    /// public key where only the private key is there; else generate a new pair.
    pub fn key_step(&self) -> (s: KeyStep)
        ensures
            match self.private_key {
                Some(p) => if self.public_key is Some {
                    s is Keep
                } else {
                    s matches KeyStep::DerivePublic { private_key } && private_key@ == p@
                },
                None => s is GenerateBoth,
            },
            s is Keep <==> has_both_keys(*self),
    {
        match &self.private_key {
            Some(p) => match &self.public_key {
                Some(_) => KeyStep::Keep,
                None => KeyStep::DerivePublic { private_key: p.clone() },
            },
            None => KeyStep::GenerateBoth,
        }
    }

    /// Sets the public key.
    pub fn set_public_key(&mut self, public_key: String)
        ensures
            final(self).public_key == Some(public_key),
            final(self).private_key == old(self).private_key,
            old(self).private_key is Some ==> has_both_keys(*final(self)),
            same_but_keys(*old(self), *final(self)),
    {
        self.public_key = Some(public_key);
    }

    /// Sets both keys.
    pub fn set_keypair(&mut self, public_key: String, private_key: String)
        ensures
            final(self).public_key == Some(public_key),
            final(self).private_key == Some(private_key),
            has_both_keys(*final(self)),
            same_but_keys(*old(self), *final(self)),
    {
        self.public_key = Some(public_key);
        self.private_key = Some(private_key);
    }
}


/// Completing is settled after one pass: a completed configuration lacks nothing, and
/// completing it again keeps its interface name, device name and device identifier.
pub proof fn lemma_completion_settles(
    a: Config,
    b: Config,
    c: Config,
    file: Seq<char>,
    again: Seq<char>,
)
    requires
        completed_from(a, b, file),
        completed_from(b, c, again),
    ensures
        !needs_completion(b),
        c.interface_name == b.interface_name,
        c.device_name == b.device_name,
        c.device_id == b.device_id,
        same_but_identity(a, c),
{
}

/// A configuration that names no device gets the default device name, and an identifier
/// that is the lower-case hexadecimal MD5 digest of that name.
pub proof fn lemma_default_device_identity(a: Config, b: Config, file: Seq<char>)
    requires
        completed_from(a, b, file),
        a.device_name is None,
        a.device_id is None,
    ensures
        opt_view(b.device_name) == Some(DEFAULT_DEVICE_NAME@),
        opt_view(b.device_id) == Some(lower_hex(md5_digest(DEFAULT_DEVICE_NAME@))),
{
}


/// `r` is what mapping `x` with `f` gives: a switch stays as it is, and a value becomes a
/// value that `f` may return for it.
pub open spec fn mapped_by<T, E, F: FnOnce(T) -> E>(x: BoolOr<T>, r: BoolOr<E>, f: F) -> bool {
    match x {
        BoolOr::Bool(b) => r == BoolOr::<E>::Bool(b),
        BoolOr::Value(v) => r matches BoolOr::Value(e) && call_ensures(f, (v,), e),
    }
}

/// Whether every result `f` may return for a value `v` is `g(v)`.
pub open spec fn computes<T, E, F: FnOnce(T) -> E>(f: F, g: spec_fn(T) -> E) -> bool {
    forall|v: T, e: E| #[trigger] call_ensures(f, (v,), e) ==> e == g(v)
}

/// Mapping with a function that returns its argument gives the setting back unchanged, and
/// keeps whether it is switched on.
pub proof fn lemma_map_identity<T, F: FnOnce(T) -> T>(x: BoolOr<T>, r: BoolOr<T>, f: F)
    requires
        mapped_by(x, r, f),
        computes(f, |v: T| v),
    ensures
        r == x,
        r.is_on() == x.is_on(),
{
}

/// Mapping with `f` and then with `g` gives what mapping once with `h` gives, where `h`
/// computes `g` after `f`; and no mapping changes whether the setting is switched on.
pub proof fn lemma_map_composition<T, U, W, F: FnOnce(T) -> U, G: FnOnce(U) -> W, H: FnOnce(T) -> W>(
    x: BoolOr<T>,
    once: BoolOr<U>,
    twice: BoolOr<W>,
    direct: BoolOr<W>,
    f: F,
    g: G,
    h: H,
    pf: spec_fn(T) -> U,
    pg: spec_fn(U) -> W,
)
    requires
        mapped_by(x, once, f),
        mapped_by(once, twice, g),
        mapped_by(x, direct, h),
        computes(f, pf),
        computes(g, pg),
        computes(h, |v: T| pg(pf(v))),
    ensures
        twice == direct,
        once.is_on() == x.is_on(),
        twice.is_on() == x.is_on(),
{
    match x {
        BoolOr::Bool(_) => {},
        BoolOr::Value(v) => {
            let e = once->Value_0;
            assert(call_ensures(f, (v,), e));
            assert(call_ensures(g, (e,), twice->Value_0));
            assert(call_ensures(h, (v,), direct->Value_0));
        },
    }
}

/// Whether a configuration that was loaded is to be written back: where completing it filled
/// something in (`changed`), or where anything is to be done about its keys.
pub fn needs_save(changed: bool, step: &KeyStep) -> (b: bool)
    ensures
        b == (changed || !(step is Keep)),
{
    changed || !matches!(step, KeyStep::Keep)
}


} // verus!
