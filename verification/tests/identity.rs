//! Tests for the device identity model: model resolution, connection kinds,
//! filters, and the GATT capability table.

use ledger_lib::ble::{ble_spec_for, classify_candidate, BleInfo, PeripheralId};
use ledger_lib::info::{ConnInfo, ConnType, Filters, LedgerInfo, Model, TcpInfo};
use ledger_lib::usb::UsbInfo;

#[test]
fn from_pid_resolves_known_ranges() {
    assert_eq!(Model::from_pid(0x4001), Model::NanoX);
    assert_eq!(Model::from_pid(0x5002), Model::NanoSPlus);
    assert_eq!(Model::from_pid(0x1234), Model::Unknown(0x1234));
}

#[test]
fn from_pid_is_total() {
    // A sweep over the whole high byte: every PID resolves to some model.
    let mut hi: u16 = 0;
    loop {
        let pid = hi << 8 | 0x0001;
        let m = Model::from_pid(pid);
        match hi << 8 {
            0x4000 => assert_eq!(m, Model::NanoX),
            0x5000 => assert_eq!(m, Model::NanoSPlus),
            _ => assert_eq!(m, Model::Unknown(pid)),
        }
        if hi == 255 {
            break;
        }
        hi += 1;
    }
}

#[test]
fn kind_follows_conn_variant() {
    let usb = LedgerInfo {
        model: Model::NanoSPlus,
        conn: ConnInfo::Usb(UsbInfo { vid: 0x2c97, pid: 0x5002, path: String::from("p") }),
    };
    assert_eq!(usb.kind(), ConnType::Usb);
    let tcp = LedgerInfo {
        model: Model::Unknown(7),
        conn: ConnInfo::Tcp(TcpInfo { addr: 0x7F000001, port: 1237 }),
    };
    assert_eq!(tcp.kind(), ConnType::Tcp);
    let ble = LedgerInfo {
        model: Model::NanoX,
        conn: ConnInfo::Ble(BleInfo { name: String::from("Nano X 1234"), addr: PeripheralId { id: 9 } }),
    };
    assert_eq!(ble.kind(), ConnType::Ble);
}

#[test]
fn filters_map_each_conn_type() {
    assert_eq!(Filters::from(ConnType::Usb), Filters::Hid);
    assert_eq!(Filters::from(ConnType::Tcp), Filters::Tcp);
    assert_eq!(Filters::from(ConnType::Ble), Filters::Ble);
}

#[test]
fn conn_info_equality_is_structural() {
    let a = ConnInfo::Ble(BleInfo { name: String::from("Nano X A"), addr: PeripheralId { id: 1 } });
    let b = ConnInfo::Ble(BleInfo { name: String::from("Nano X A"), addr: PeripheralId { id: 1 } });
    let c = ConnInfo::Ble(BleInfo { name: String::from("Nano X B"), addr: PeripheralId { id: 1 } });
    let d = ConnInfo::Ble(BleInfo { name: String::from("Nano X A"), addr: PeripheralId { id: 2 } });
    assert_eq!(a, b);
    assert!(a != c);
    assert!(a != d);
    let u = ConnInfo::Usb(UsbInfo { vid: 1, pid: 2, path: String::from("x") });
    assert!(a != u);
}

#[test]
fn candidate_names_classify_by_substring() {
    assert_eq!(classify_candidate("Nano X 1234"), Some(Model::NanoX));
    assert_eq!(classify_candidate("Ledger Stax 42"), Some(Model::Stax));
    assert_eq!(classify_candidate("Nano S"), None);
    assert_eq!(classify_candidate("Speaker"), None);
    assert_eq!(classify_candidate(""), None);
}

#[test]
fn display_forms_follow_the_connection() {
    let ble = LedgerInfo {
        model: Model::NanoX,
        conn: ConnInfo::Ble(BleInfo { name: String::from("Nano X 1234"), addr: PeripheralId { id: 9 } }),
    };
    assert_eq!(ble.display_string(), "NanoX (BLE Nano X 1234)");
    let usb = LedgerInfo {
        model: Model::NanoSPlus,
        conn: ConnInfo::Usb(UsbInfo { vid: 0x2c97, pid: 0x5002, path: String::from("p") }),
    };
    assert_eq!(usb.display_string(), "NanoSPlus (HID 2c97:5002)");
    let tcp = LedgerInfo {
        model: Model::Unknown(7),
        conn: ConnInfo::Tcp(TcpInfo { addr: 2130706433, port: 1237 }),
    };
    assert_eq!(tcp.display_string(), "Unknown (TCP 2130706433:1237)");
}

#[test]
fn conn_info_from_wraps_each_transport() {
    let b = BleInfo { name: String::from("Stax 1"), addr: PeripheralId { id: 3 } };
    let c: ConnInfo = b.clone().into();
    assert_eq!(c, ConnInfo::Ble(b));
    let u = UsbInfo { vid: 1, pid: 2, path: String::from("p") };
    let c: ConnInfo = u.clone().into();
    assert_eq!(c, ConnInfo::Usb(u));
    let t = TcpInfo { addr: 1, port: 2 };
    let c: ConnInfo = t.into();
    assert_eq!(c, ConnInfo::Tcp(t));
}

#[test]
fn gatt_table_covers_ble_models() {
    let nano_x = ble_spec_for(&Model::NanoX).unwrap();
    assert_eq!(nano_x.service_uuid, 0x13d63400_2c97_0004_0000_4c6564676572);
    assert_eq!(nano_x.notify_uuid, 0x13d63400_2c97_0004_0001_4c6564676572);
    assert_eq!(nano_x.write_uuid, 0x13d63400_2c97_0004_0002_4c6564676572);
    assert_eq!(nano_x.write_cmd_uuid, 0x13d63400_2c97_0004_0003_4c6564676572);
    let stax = ble_spec_for(&Model::Stax).unwrap();
    assert_eq!(stax.service_uuid, 0x13d63400_2c97_6004_0000_4c6564676572);
    assert!(ble_spec_for(&Model::NanoS).is_none());
    assert!(ble_spec_for(&Model::NanoSPlus).is_none());
    assert!(ble_spec_for(&Model::Unknown(3)).is_none());
}
