//! Device information types and connection filters.

use vstd::prelude::*;
use vstd::string::StringExecFns;

use crate::ble::{BleInfo, BleInfoV};
use crate::usb::{usb_display, UsbInfo, UsbInfoV};

verus! {

/// Ledger device models.
#[derive(Clone, Debug, PartialEq, Eq, Structural)]
pub enum Model {
    /// Nano S
    NanoS,
    /// Nano S Plus
    NanoSPlus,
    /// Nano X
    NanoX,
    /// Stax
    Stax,
    /// Unknown model, carrying the unmatched product identifier.
    Unknown(u16),
}

/// What [`Model::from_pid`] resolves a product identifier to: the high byte
/// is matched against known ranges, and anything else is `Unknown`.
pub open spec fn model_of_pid(pid: u16) -> Model {
    if pid & 0xFF00 == 0x4000 {
        Model::NanoX
    } else if pid & 0xFF00 == 0x5000 {
        Model::NanoSPlus
    } else {
        Model::Unknown(pid)
    }
}

impl Model {
    /// Convert a USB PID to a [`Model`] kind.
    ///
    /// Ledger PIDs vary with device state, so only the top byte is used for
    /// matching. Total: an unmatched PID resolves to `Unknown`, never an error.
    pub fn from_pid(pid: u16) -> (r: Model)
        ensures
            r == model_of_pid(pid),
    {
        let masked: u16 = pid & 0xFF00;
        if masked == 0x4000 {
            Model::NanoX
        } else if masked == 0x5000 {
            Model::NanoSPlus
        } else {
            Model::Unknown(pid)
        }
    }
}

/// Model resolution is total: every product identifier resolves to a known
/// model or to `Unknown` carrying that identifier, never to an error.
pub proof fn lemma_from_pid_total(pid: u16)
    ensures
        model_of_pid(pid) == Model::NanoX || model_of_pid(pid) == Model::NanoSPlus || model_of_pid(
            pid,
        ) == Model::Unknown(pid),
{
}

/// TCP specific connection information. The socket plumbing stays outside
/// the library; the address is held as plain values.
#[derive(Clone, Copy, Debug, PartialEq, Eq, Structural)]
pub struct TcpInfo {
    /// IPv4 address, big-endian packed.
    pub addr: u32,
    /// TCP port.
    pub port: u16,
}

/// The display form of TCP info: address and port in decimal.
pub open spec fn tcp_display(i: TcpInfo) -> Seq<char> {
    crate::text::dec_seq(i.addr as int) + ":"@ + crate::text::dec_seq(i.port as int)
}

impl TcpInfo {
    /// The display form of this info.
    pub fn display_string(&self) -> (r: String)
        ensures
            r@ == tcp_display(*self),
    {
        let mut s = crate::text::u32_dec(self.addr);
        s.append(":");
        let p = crate::text::u32_dec(self.port as u32);
        s.append(p.as_str());
        assert(s@ =~= tcp_display(*self));
        s
    }
}

/// Ledger connection information, one variant per compiled-in transport.
/// Structural equality is the sole mechanism used to re-identify a
/// previously-listed device at connect time.
#[derive(Clone, Debug)]
pub enum ConnInfo {
    Usb(UsbInfo),
    Tcp(TcpInfo),
    Ble(BleInfo),
}

/// Mathematical model of [`ConnInfo`].
pub enum ConnInfoV {
    Usb(UsbInfoV),
    Tcp(TcpInfo),
    Ble(BleInfoV),
}

impl View for ConnInfo {
    type V = ConnInfoV;

    open spec fn view(&self) -> ConnInfoV {
        match self {
            ConnInfo::Usb(i) => ConnInfoV::Usb(i@),
            ConnInfo::Tcp(i) => ConnInfoV::Tcp(*i),
            ConnInfo::Ble(i) => ConnInfoV::Ble(i@),
        }
    }
}

impl PartialEq for ConnInfo {
    fn eq(&self, other: &ConnInfo) -> bool {
        match (self, other) {
            (ConnInfo::Usb(a), ConnInfo::Usb(b)) => a == b,
            (ConnInfo::Tcp(a), ConnInfo::Tcp(b)) => a == b,
            (ConnInfo::Ble(a), ConnInfo::Ble(b)) => a == b,
            _ => false,
        }
    }
}

impl vstd::std_specs::cmp::PartialEqSpecImpl for ConnInfo {
    open spec fn obeys_eq_spec() -> bool {
        true
    }

    open spec fn eq_spec(&self, other: &ConnInfo) -> bool {
        self@ == other@
    }
}

impl From<UsbInfo> for ConnInfo {
    fn from(value: UsbInfo) -> ConnInfo {
        ConnInfo::Usb(value)
    }
}

impl vstd::std_specs::convert::FromSpecImpl<UsbInfo> for ConnInfo {
    open spec fn obeys_from_spec() -> bool {
        true
    }

    open spec fn from_spec(value: UsbInfo) -> ConnInfo {
        ConnInfo::Usb(value)
    }
}

impl From<TcpInfo> for ConnInfo {
    fn from(value: TcpInfo) -> ConnInfo {
        ConnInfo::Tcp(value)
    }
}

impl vstd::std_specs::convert::FromSpecImpl<TcpInfo> for ConnInfo {
    open spec fn obeys_from_spec() -> bool {
        true
    }

    open spec fn from_spec(value: TcpInfo) -> ConnInfo {
        ConnInfo::Tcp(value)
    }
}

impl From<BleInfo> for ConnInfo {
    fn from(value: BleInfo) -> ConnInfo {
        ConnInfo::Ble(value)
    }
}

impl vstd::std_specs::convert::FromSpecImpl<BleInfo> for ConnInfo {
    open spec fn obeys_from_spec() -> bool {
        true
    }

    open spec fn from_spec(value: BleInfo) -> ConnInfo {
        ConnInfo::Ble(value)
    }
}

/// Ledger connection types.
#[derive(Clone, Copy, Debug, PartialEq, Eq, Structural)]
pub enum ConnType {
    Usb,
    Tcp,
    Ble,
}

/// Discovery filter consumed by `list`, one value per connection type.
#[derive(Clone, Copy, Debug, PartialEq, Eq, Structural)]
pub enum Filters {
    Hid,
    Tcp,
    Ble,
}

/// The connection type a [`ConnInfo`] variant belongs to.
pub open spec fn conn_type_of(conn: ConnInfoV) -> ConnType {
    match conn {
        ConnInfoV::Usb(_) => ConnType::Usb,
        ConnInfoV::Tcp(_) => ConnType::Tcp,
        ConnInfoV::Ble(_) => ConnType::Ble,
    }
}

/// The discovery filter a connection type maps to (a total bijection over
/// the compiled-in transports).
pub open spec fn filters_of(value: ConnType) -> Filters {
    match value {
        ConnType::Usb => Filters::Hid,
        ConnType::Tcp => Filters::Tcp,
        ConnType::Ble => Filters::Ble,
    }
}

impl From<ConnType> for Filters {
    /// Convert a connection type to a discovery filter.
    fn from(value: ConnType) -> Filters {
        match value {
            ConnType::Usb => Filters::Hid,
            ConnType::Tcp => Filters::Tcp,
            ConnType::Ble => Filters::Ble,
        }
    }
}

impl vstd::std_specs::convert::FromSpecImpl<ConnType> for Filters {
    open spec fn obeys_from_spec() -> bool {
        true
    }

    open spec fn from_spec(value: ConnType) -> Filters {
        filters_of(value)
    }
}

/// The display form of a model: its bare name.
pub open spec fn model_display(m: Model) -> Seq<char> {
    match m {
        Model::NanoS => "NanoS"@,
        Model::NanoSPlus => "NanoSPlus"@,
        Model::NanoX => "NanoX"@,
        Model::Stax => "Stax"@,
        Model::Unknown(_) => "Unknown"@,
    }
}

/// The display form of connection info: the transport kind, then the
/// transport-specific form.
pub open spec fn conn_display(c: ConnInfoV) -> Seq<char> {
    match c {
        ConnInfoV::Usb(u) => "HID "@ + usb_display(u),
        ConnInfoV::Tcp(t) => "TCP "@ + tcp_display(t),
        ConnInfoV::Ble(b) => "BLE "@ + b.name,
    }
}

impl Model {
    /// The display form of this model.
    pub fn display_string(&self) -> (r: String)
        ensures
            r@ == model_display(*self),
    {
        match self {
            Model::NanoS => "NanoS".to_owned(),
            Model::NanoSPlus => "NanoSPlus".to_owned(),
            Model::NanoX => "NanoX".to_owned(),
            Model::Stax => "Stax".to_owned(),
            Model::Unknown(_) => "Unknown".to_owned(),
        }
    }
}

impl ConnInfo {
    /// The display form of this connection info.
    pub fn display_string(&self) -> (r: String)
        ensures
            r@ == conn_display(self@),
    {
        match self {
            ConnInfo::Usb(u) => {
                let mut s = "HID ".to_owned();
                let i = u.display_string();
                s.append(i.as_str());
                s
            },
            ConnInfo::Tcp(t) => {
                let mut s = "TCP ".to_owned();
                let i = t.display_string();
                s.append(i.as_str());
                s
            },
            ConnInfo::Ble(b) => {
                let mut s = "BLE ".to_owned();
                s.append(b.name.as_str());
                s
            },
        }
    }
}

/// Ledger device information: the unit of device identity returned by
/// discovery and required as input to connect.
#[derive(Clone, Debug)]
pub struct LedgerInfo {
    /// Device model.
    pub model: Model,
    /// Device connection information.
    pub conn: ConnInfo,
}

/// Mathematical model of [`LedgerInfo`].
pub struct LedgerInfoV {
    pub model: Model,
    pub conn: ConnInfoV,
}

impl View for LedgerInfo {
    type V = LedgerInfoV;

    open spec fn view(&self) -> LedgerInfoV {
        LedgerInfoV { model: self.model, conn: self.conn@ }
    }
}

impl PartialEq for LedgerInfo {
    fn eq(&self, other: &LedgerInfo) -> bool {
        self.model == other.model && self.conn == other.conn
    }
}

impl vstd::std_specs::cmp::PartialEqSpecImpl for LedgerInfo {
    open spec fn obeys_eq_spec() -> bool {
        true
    }

    open spec fn eq_spec(&self, other: &LedgerInfo) -> bool {
        self@ == other@
    }
}

/// The display form of device identity: the model, then the connection in
/// parentheses.
pub open spec fn ledger_display(d: LedgerInfoV) -> Seq<char> {
    model_display(d.model) + " ("@ + conn_display(d.conn) + ")"@
}

impl LedgerInfo {
    /// The display form of this device identity.
    pub fn display_string(&self) -> (r: String)
        ensures
            r@ == ledger_display(self@),
    {
        let mut s = self.model.display_string();
        s.append(" (");
        let c = self.conn.display_string();
        s.append(c.as_str());
        s.append(")");
        assert(s@ =~= ledger_display(self@));
        s
    }

    /// Fetch the connection kind of this device.
    pub fn kind(&self) -> (r: ConnType)
        ensures
            r == conn_type_of(self.conn@),
    {
        match &self.conn {
            ConnInfo::Usb(_) => ConnType::Usb,
            ConnInfo::Tcp(_) => ConnType::Tcp,
            ConnInfo::Ble(_) => ConnType::Ble,
        }
    }
}

/// Application info object: the descriptor of an installed app, decoded from
/// exchange responses. Flag bits are held as a plain value.
#[derive(Clone, Debug, PartialEq)]
pub struct AppInfo {
    pub name: String,
    pub version: String,
    pub flags: u32,
}

/// Device info object: firmware target and version descriptor, decoded from
/// exchange responses.
#[derive(Clone, Debug, PartialEq)]
pub struct DeviceInfo {
    pub target_id: [u8; 4],
    pub se_version: String,
    pub mcu_version: String,
    pub flags: Vec<u8>,
}

} // verus!
