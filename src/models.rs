use vstd::prelude::*;
use vstd::string::*;

use crate::search::first_match;
use crate::text::mac_text;

verus! {

/// The hardware address of a switch: six bytes.
#[derive(Clone, Copy, Debug)]
pub struct MacAddr {
    pub bytes: [u8; 6],
}

impl MacAddr {
    pub fn new(bytes: [u8; 6]) -> (r: MacAddr)
        ensures
            r.bytes@ == bytes@,
    {
        MacAddr { bytes }
    }
}

impl View for MacAddr {
    type V = Seq<u8>;

    open spec fn view(&self) -> Seq<u8> {
        self.bytes@
    }
}

impl PartialEq for MacAddr {
    fn eq(&self, o: &MacAddr) -> (r: bool) {
        let r = self.bytes[0] == o.bytes[0] && self.bytes[1] == o.bytes[1] && self.bytes[2]
            == o.bytes[2] && self.bytes[3] == o.bytes[3] && self.bytes[4] == o.bytes[4]
            && self.bytes[5] == o.bytes[5];
        proof {
            if r {
                assert(self.bytes@ =~= o.bytes@);
            }
        }
        r
    }
}

impl vstd::std_specs::cmp::PartialEqSpecImpl for MacAddr {
    open spec fn obeys_eq_spec() -> bool {
        true
    }

    open spec fn eq_spec(&self, o: &MacAddr) -> bool {
        self@ == o@
    }
}

impl Eq for MacAddr {
}

/// What mac_address reads from a text, as six bytes; `None` where it refuses it.
pub uninterp spec fn parsed_mac(s: Seq<char>) -> Option<Seq<u8>>;

/// Relies on `FromStr` for `mac_address::MacAddress`: the bytes that it reads
/// from `s` (`00:11:22:33:44:55`, `00-11-22-33-44-55` or `001122334455`).
#[verifier::external_body]
fn parse_mac(s: &str) -> (r: Option<MacAddr>)
    ensures
        r matches Some(m) ==> parsed_mac(s@) == Some(m@),
        r is None ==> parsed_mac(s@) is None,
{
    s.parse::<mac_address::MacAddress>().ok().map(|m| MacAddr::new(m.bytes()))
}

/// Relies on `Display` for `mac_address::MacAddress`, which writes each byte as
/// two upper-case hexadecimal digits (`{:<02X}`) and joins them with `:`.
#[verifier::external_body]
fn display_mac(m: &MacAddr) -> (r: String)
    ensures
        r@ == mac_text(m@),
{
    mac_address::MacAddress::new(m.bytes).to_string()
}

impl MacAddr {
    /// Reads a hardware address written as text.
    pub fn parse(s: &str) -> (r: Option<MacAddr>)
        ensures
            r matches Some(m) ==> parsed_mac(s@) == Some(m@),
            r is None ==> parsed_mac(s@) is None,
    {
        parse_mac(s)
    }

    /// The address as text: `AA:BB:CC:DD:EE:FF`.
    pub fn to_string(&self) -> (r: String)
        ensures
            r@ == mac_text(self@),
    {
        display_mac(self)
    }
}

/// The controller's own name for a device.
#[derive(Debug)]
pub struct DeviceId(String);

impl DeviceId {
    pub fn new(device_id_str: &str) -> (r: DeviceId)
        ensures
            r@ == device_id_str@,
    {
        DeviceId(String::from_str(device_id_str))
    }

    pub fn as_str(&self) -> (r: &str)
        ensures
            r@ == self@,
    {
        self.0.as_str()
    }

    pub fn to_string(&self) -> (r: String)
        ensures
            r@ == self@,
    {
        self.0.clone()
    }
}

impl View for DeviceId {
    type V = Seq<char>;

    closed spec fn view(&self) -> Seq<char> {
        self.0@
    }
}

impl Clone for DeviceId {
    fn clone(&self) -> (r: DeviceId)
        ensures
            r@ == self@,
    {
        DeviceId(self.0.clone())
    }
}

impl PartialEq for DeviceId {
    fn eq(&self, o: &DeviceId) -> (r: bool) {
        self.0 == o.0
    }
}

impl vstd::std_specs::cmp::PartialEqSpecImpl for DeviceId {
    open spec fn obeys_eq_spec() -> bool {
        true
    }

    open spec fn eq_spec(&self, o: &DeviceId) -> bool {
        self@ == o@
    }
}

/// The PoE setting of a port: `Auto` supplies power, `Off` withholds it.
#[derive(Clone, Copy, Debug, PartialEq, Eq, Structural)]
pub enum PoeMode {
    Auto,
    Off,
}

/// A port of a device, as the controller reports it.
#[derive(Clone, Copy, Debug, PartialEq, Eq, Structural)]
pub struct Port {
    pub port_idx: usize,
    pub poe_mode: Option<PoeMode>,
}

/// The power state reported for a machine: `running` or `stopped`.
#[derive(Debug)]
pub struct PowerStatus {
    pub status: String,
}

impl View for PowerStatus {
    type V = Seq<char>;

    open spec fn view(&self) -> Seq<char> {
        self.status@
    }
}

/// The reported state of a port whose PoE setting is `mode`.
pub open spec fn status_text(mode: PoeMode) -> Seq<char> {
    match mode {
        PoeMode::Auto => "running"@,
        PoeMode::Off => "stopped"@,
    }
}

impl Port {
    /// The power state of this port; `None` where the controller gave no PoE setting.
    pub fn power_status(&self) -> (r: Option<PowerStatus>)
        ensures
            r is Some <==> self.poe_mode is Some,
            r matches Some(s) ==> s@ == status_text(self.poe_mode->0),
    {
        match self.poe_mode {
            Some(PoeMode::Auto) => Some(PowerStatus { status: String::from_str("running") }),
            Some(PoeMode::Off) => Some(PowerStatus { status: String::from_str("stopped") }),
            None => None,
        }
    }
}

/// A device that the controller knows, with its ports.
#[derive(Debug)]
pub struct Device {
    pub mac: MacAddr,
    pub device_id: DeviceId,
    pub port_table: Vec<Port>,
}

/// Whether a port has the index `i`.
pub open spec fn port_has_index(i: usize) -> spec_fn(Port) -> bool {
    |p: Port| p.port_idx == i
}

/// The first port of `table` with the index `i`.
pub open spec fn port_of(table: Seq<Port>, i: usize) -> Option<Port> {
    match first_match(table, port_has_index(i), 0) {
        Some(k) => Some(table[k]),
        None => None,
    }
}

/// The power state that a device's port table gives for port `i`: none where
/// no port has that index or the port has no PoE setting.
pub open spec fn port_status(table: Seq<Port>, i: usize) -> Option<Seq<char>> {
    match port_of(table, i) {
        Some(p) => match p.poe_mode {
            Some(m) => Some(status_text(m)),
            None => None,
        },
        None => None,
    }
}

impl Device {
    /// The first port with the index `port_id`.
    pub fn port(&self, port_id: usize) -> (r: Option<Port>)
        ensures
            r == port_of(self.port_table@, port_id),
    {
        let mut i: usize = 0;
        while i < self.port_table.len()
            invariant
                0 <= i <= self.port_table@.len(),
                first_match(self.port_table@, port_has_index(port_id), 0) == first_match(
                    self.port_table@,
                    port_has_index(port_id),
                    i as int,
                ),
            decreases self.port_table@.len() - i,
        {
            if self.port_table[i].port_idx == port_id {
                return Some(self.port_table[i]);
            }
            i = i + 1;
        }
        None
    }

    /// The power state of the machine on port `port_id`: `running` where the
    /// port supplies power, `stopped` where it does not, and `None` where no
    /// port has that index or the port has no PoE setting.
    pub fn power_status(&self, port_id: usize) -> (r: Option<PowerStatus>)
        ensures
            r matches Some(s) ==> port_status(self.port_table@, port_id) == Some(s@),
            r is None ==> port_status(self.port_table@, port_id) is None,
    {
        match self.port(port_id) {
            Some(p) => p.power_status(),
            None => None,
        }
    }
}

/// The envelope of the controller's replies.
#[derive(Debug)]
pub struct UnifiResponse<T> {
    pub meta: Meta,
    pub data: T,
}

/// The status part of a reply envelope.
#[derive(Debug)]
pub struct Meta {
    pub rc: String,
}

/// The credentials sent to the controller's login endpoint.
pub struct AuthData {
    username: String,
    password: String,
}

impl AuthData {
    pub fn new(username: String, password: String) -> (r: AuthData)
        ensures
            r.username() == username@,
            r.password() == password@,
    {
        AuthData { username, password }
    }

    pub closed spec fn username(&self) -> Seq<char> {
        self.username@
    }

    pub closed spec fn password(&self) -> Seq<char> {
        self.password@
    }

    pub fn username_str(&self) -> (r: &str)
        ensures
            r@ == self.username(),
    {
        self.username.as_str()
    }

    pub fn password_str(&self) -> (r: &str)
        ensures
            r@ == self.password(),
    {
        self.password.as_str()
    }
}

} // verus!
