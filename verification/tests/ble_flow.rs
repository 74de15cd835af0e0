//! Scenario tests for the BLE transport and device session: discovery,
//! the connect handshake, replace-on-list semantics, reassembly, and the
//! exchange deadline.

use ledger_lib::ble::{BleEvent, BleInfo, PeripheralId, PowerState};
use ledger_lib::info::{ConnInfo, Model};
use ledger_lib::session::BleDevice;
use ledger_lib::transport::BleTransport;
use ledger_lib::Error;

const NANO_X_SERVICE: u128 = 0x13d63400_2c97_0004_0000_4c6564676572;
const NANO_X_NOTIFY: u128 = 0x13d63400_2c97_0004_0001_4c6564676572;
const NANO_X_WRITE: u128 = 0x13d63400_2c97_0004_0002_4c6564676572;

fn pid(n: u128) -> PeripheralId {
    PeripheralId { id: n }
}

fn discovered(n: u128, name: &str) -> BleEvent {
    BleEvent::PeripheralDiscovered { id: pid(n), name: String::from(name) }
}

fn handshake_events(n: u128) -> Vec<BleEvent> {
    vec![
        BleEvent::PeripheralConnected { id: pid(n) },
        BleEvent::ServicesDiscovered { id: pid(n), services: Ok(vec![NANO_X_SERVICE]) },
        BleEvent::CharacteristicsDiscovered {
            id: pid(n),
            characteristics: Ok(vec![NANO_X_NOTIFY, NANO_X_WRITE]),
        },
        BleEvent::SubscriptionChangeResult {
            id: pid(n),
            characteristic: NANO_X_NOTIFY,
            result: Ok(()),
        },
    ]
}

fn connected_device(n: u128, name: &str) -> BleDevice {
    let mut t = BleTransport::new();
    let infos = t.list(&vec![discovered(n, name)]);
    assert_eq!(infos.len(), 1);
    let info = match &infos[0].conn {
        ConnInfo::Ble(b) => BleInfo { name: b.name.clone(), addr: b.addr },
        _ => panic!("expected a BLE connection"),
    };
    t.connect(info, &handshake_events(n)).unwrap()
}

#[test]
fn power_on_waits_through_transient_states() {
    let t = BleTransport::new();
    let events = vec![
        BleEvent::ManagerStateChanged { state: PowerState::PoweredOff },
        BleEvent::ManagerStateChanged { state: PowerState::Resetting },
        BleEvent::ManagerStateChanged { state: PowerState::PoweredOn },
    ];
    let (r, consumed) = t.wait_for_power_on(&events, 0);
    assert_eq!(r, Ok(()));
    assert_eq!(consumed, 3);
}

#[test]
fn power_on_fails_on_unauthorized_radio() {
    let t = BleTransport::new();
    let events = vec![BleEvent::ManagerStateChanged { state: PowerState::Unauthorized }];
    let (r, _) = t.wait_for_power_on(&events, 0);
    assert_eq!(r, Err(Error::Unknown));
    let (r2, _) = t.wait_for_power_on(&Vec::new(), 0);
    assert_eq!(r2, Err(Error::Unknown));
}

#[test]
fn list_returns_matching_peripherals_only() {
    let mut t = BleTransport::new();
    let events = vec![
        discovered(1, "Nano X 1234"),
        BleEvent::ManagerStateChanged { state: PowerState::PoweredOn },
        discovered(2, "Kettle"),
        discovered(3, "Ledger Stax 9"),
    ];
    let infos = t.list(&events);
    assert_eq!(infos.len(), 2);
    assert_eq!(infos[0].model, Model::NanoX);
    match &infos[0].conn {
        ConnInfo::Ble(b) => {
            assert_eq!(b.name, "Nano X 1234");
            assert_eq!(b.addr, pid(1));
        },
        _ => panic!("expected a BLE connection"),
    }
    assert_eq!(infos[1].model, Model::Stax);
}

#[test]
fn connect_with_stale_info_is_no_devices() {
    let mut t = BleTransport::new();
    let old_infos = t.list(&vec![discovered(1, "Nano X old")]);
    assert_eq!(old_infos.len(), 1);
    let stale = BleInfo { name: String::from("Nano X old"), addr: pid(1) };
    // A second pass replaces the remembered set; the old entry is gone.
    let new_infos = t.list(&vec![discovered(2, "Nano X new")]);
    assert_eq!(new_infos.len(), 1);
    let r = t.connect(stale, &handshake_events(1));
    assert!(matches!(r, Err(Error::NoDevices)));
}

#[test]
fn connect_resolves_session_handles() {
    let d = connected_device(7, "Nano X 1234");
    assert_eq!(d.mtu, 23);
    assert_eq!(d.peripheral, pid(7));
    assert_eq!(d.write_characteristic, NANO_X_WRITE);
    assert_eq!(d.notify_characteristic, NANO_X_NOTIFY);
    assert_eq!(d.info.name, "Nano X 1234");
    assert_eq!(d.is_connected(), Ok(true));
}

#[test]
fn connect_failure_paths_map_to_unknown() {
    let mut t = BleTransport::new();
    let infos = t.list(&vec![discovered(5, "Nano X 5")]);
    let info = || BleInfo { name: String::from("Nano X 5"), addr: pid(5) };
    assert_eq!(infos.len(), 1);
    // Connect refused by the peripheral.
    let r = t.connect(info(), &vec![BleEvent::PeripheralConnectFailed { id: pid(5) }]);
    assert!(matches!(r, Err(Error::Unknown)));
    // Service discovery error.
    let r = t.connect(
        info(),
        &vec![
            BleEvent::PeripheralConnected { id: pid(5) },
            BleEvent::ServicesDiscovered { id: pid(5), services: Err(()) },
        ],
    );
    assert!(matches!(r, Err(Error::Unknown)));
    // No services found.
    let r = t.connect(
        info(),
        &vec![
            BleEvent::PeripheralConnected { id: pid(5) },
            BleEvent::ServicesDiscovered { id: pid(5), services: Ok(vec![]) },
        ],
    );
    assert!(matches!(r, Err(Error::Unknown)));
    // A required characteristic is missing.
    let r = t.connect(
        info(),
        &vec![
            BleEvent::PeripheralConnected { id: pid(5) },
            BleEvent::ServicesDiscovered { id: pid(5), services: Ok(vec![NANO_X_SERVICE]) },
            BleEvent::CharacteristicsDiscovered {
                id: pid(5),
                characteristics: Ok(vec![NANO_X_NOTIFY]),
            },
        ],
    );
    assert!(matches!(r, Err(Error::Unknown)));
    // Subscription refused.
    let r = t.connect(
        info(),
        &vec![
            BleEvent::PeripheralConnected { id: pid(5) },
            BleEvent::ServicesDiscovered { id: pid(5), services: Ok(vec![NANO_X_SERVICE]) },
            BleEvent::CharacteristicsDiscovered {
                id: pid(5),
                characteristics: Ok(vec![NANO_X_NOTIFY, NANO_X_WRITE]),
            },
            BleEvent::SubscriptionChangeResult {
                id: pid(5),
                characteristic: NANO_X_NOTIFY,
                result: Err(()),
            },
        ],
    );
    assert!(matches!(r, Err(Error::Unknown)));
    // Event stream exhausted mid-handshake.
    let r = t.connect(info(), &Vec::new());
    assert!(matches!(r, Err(Error::Unknown)));
    // Events for another peripheral are ignored, not misrouted.
    let r = t.connect(
        info(),
        &vec![
            BleEvent::PeripheralConnectFailed { id: pid(6) },
            BleEvent::PeripheralConnected { id: pid(5) },
        ],
    );
    assert!(matches!(r, Err(Error::Unknown)));
}

fn ack(n: u128) -> BleEvent {
    BleEvent::WriteCharacteristicResult {
        id: pid(n),
        characteristic: NANO_X_WRITE,
        result: Ok(()),
    }
}

fn sub_ok(n: u128) -> BleEvent {
    BleEvent::SubscriptionChangeResult {
        id: pid(n),
        characteristic: NANO_X_NOTIFY,
        result: Ok(()),
    }
}

fn notify(n: u128, bytes: Vec<u8>) -> BleEvent {
    BleEvent::CharacteristicValue { id: pid(n), characteristic: NANO_X_NOTIFY, value: Ok(bytes) }
}

#[test]
fn exchange_end_to_end() {
    let d = connected_device(7, "Nano X 1234");
    let events = vec![
        ack(7),
        sub_ok(7),
        notify(7, vec![0x05, 0, 0, 0, 2, 0xCC, 0xDD]),
    ];
    let r = d.exchange(&vec![0xAA, 0xBB], &events);
    assert_eq!(r, Ok(vec![0xCC, 0xDD]));
}

#[test]
fn exchange_reassembles_multiple_frames() {
    let d = connected_device(8, "Nano X 8");
    let events = vec![
        ack(8),
        sub_ok(8),
        notify(8, vec![0x05, 0, 0, 0, 4, 0xA1]),
        notify(8, vec![9, 9, 9, 9, 9, 0xA2, 0xA3]),
        notify(8, vec![9, 9, 9, 9, 9, 0xA4]),
    ];
    let r = d.exchange(&vec![0x01], &events);
    assert_eq!(r, Ok(vec![0xA1, 0xA2, 0xA3, 0xA4]));
}

#[test]
fn exchange_times_out_without_response() {
    // The fake transport confirms the write but never delivers a
    // notification before the deadline expires.
    let d = connected_device(9, "Nano X 9");
    let r = d.exchange(&vec![0xAA], &vec![ack(9), BleEvent::Deadline]);
    assert_eq!(r, Err(Error::Timeout));
}

#[test]
fn exchange_reports_closed_channel() {
    let d = connected_device(9, "Nano X 9");
    let r = d.exchange(&vec![0xAA], &vec![ack(9), sub_ok(9)]);
    assert_eq!(r, Err(Error::Closed));
}

#[test]
fn exchange_rejects_malformed_first_frame() {
    let d = connected_device(9, "Nano X 9");
    // Too short.
    let r = d.exchange(&vec![0xAA], &vec![ack(9), sub_ok(9), notify(9, vec![0x05, 0, 0, 0])]);
    assert_eq!(r, Err(Error::UnexpectedResponse));
    // Wrong type tag.
    let r = d.exchange(&vec![0xAA], &vec![ack(9), sub_ok(9), notify(9, vec![0x01, 0, 0, 0, 2])]);
    assert_eq!(r, Err(Error::UnexpectedResponse));
    // Declared length zero.
    let r = d.exchange(&vec![0xAA], &vec![ack(9), sub_ok(9), notify(9, vec![0x05, 0, 0, 0, 0])]);
    assert_eq!(r, Err(Error::EmptyResponse));
}

#[test]
fn write_command_awaits_one_ack_per_chunk() {
    let d = BleDevice {
        info: BleInfo { name: String::from("Nano X w"), addr: pid(4) },
        mtu: 5,
        peripheral: pid(4),
        write_characteristic: NANO_X_WRITE,
        notify_characteristic: NANO_X_NOTIFY,
    };
    // Body 2 + 3 bytes at chunk size 2 means three chunks, three acks.
    let payload: Vec<u8> = vec![1, 2, 3];
    let (r, consumed) = d.write_command(0x05, &payload, &vec![ack(4), ack(4), ack(4)], 0);
    assert_eq!(r, Ok(()));
    assert_eq!(consumed, 3);
    // A failed write confirmation aborts with Unknown.
    let failed = BleEvent::WriteCharacteristicResult {
        id: pid(4),
        characteristic: NANO_X_WRITE,
        result: Err(()),
    };
    let (r, _) = d.write_command(0x05, &payload, &vec![ack(4), failed], 0);
    assert_eq!(r, Err(Error::Unknown));
}
