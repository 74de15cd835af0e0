//! USB transport placeholders: instances of the device identity model for the
//! USB connection kind. The platform HID plumbing is out of scope; these
//! types fix the shape that discovery and connection return for USB devices.

use vstd::prelude::*;
use vstd::string::StringExecFns;

verus! {

/// USB specific device information.
#[derive(Clone, Debug)]
pub struct UsbInfo {
    /// USB vendor identifier.
    pub vid: u16,
    /// USB product identifier.
    pub pid: u16,
    /// Platform device path.
    pub path: String,
}

/// Mathematical model of [`UsbInfo`].
pub struct UsbInfoV {
    pub vid: u16,
    pub pid: u16,
    pub path: Seq<char>,
}

impl View for UsbInfo {
    type V = UsbInfoV;

    open spec fn view(&self) -> UsbInfoV {
        UsbInfoV { vid: self.vid, pid: self.pid, path: self.path@ }
    }
}

impl PartialEq for UsbInfo {
    fn eq(&self, other: &UsbInfo) -> bool {
        self.vid == other.vid && self.pid == other.pid && self.path == other.path
    }
}

impl vstd::std_specs::cmp::PartialEqSpecImpl for UsbInfo {
    open spec fn obeys_eq_spec() -> bool {
        true
    }

    open spec fn eq_spec(&self, other: &UsbInfo) -> bool {
        self@ == other@
    }
}

/// The display form of USB info: vendor and product id in hexadecimal.
pub open spec fn usb_display(i: UsbInfoV) -> Seq<char> {
    crate::text::hex4_seq(i.vid as int) + ":"@ + crate::text::hex4_seq(i.pid as int)
}

impl UsbInfo {
    /// The display form of this info.
    pub fn display_string(&self) -> (r: String)
        ensures
            r@ == usb_display(self@),
    {
        let mut s = crate::text::u16_hex4(self.vid);
        s.append(":");
        let p = crate::text::u16_hex4(self.pid);
        s.append(p.as_str());
        assert(s@ =~= usb_display(self@));
        s
    }
}

/// Transport for listing and connecting to USB connected devices. The
/// platform HID manager stays outside the library; the type is the anchor
/// for the USB half of the transport contract.
pub struct UsbTransport {}

impl UsbTransport {
    /// Create a USB transport.
    pub fn new() -> (r: UsbTransport) {
        UsbTransport {  }
    }
}

/// USB connected device handle.
pub struct UsbDevice {
    pub info: UsbInfo,
}

} // verus!
