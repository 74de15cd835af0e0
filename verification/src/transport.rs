//! The BLE transport: discovery of peripherals advertising a supported
//! model name, the remembered candidate table with replace-on-list
//! semantics, and the strictly sequential connect handshake.

use vstd::prelude::*;

use crate::ble::{
    ble_spec_of, ble_spec_for, characteristics_outcome, characteristics_step, classify_candidate,
    connect_outcome, connect_step, model_of_name, power_outcome, power_step, services_outcome,
    services_step, subscribe_outcome, subscribe_step, BleEvent, BleInfo, BleInfoV, PeripheralId,
    Step,
};
use crate::info::{ConnInfo, ConnInfoV, LedgerInfo, LedgerInfoV, Model};
use crate::session::{BleDevice, BleDeviceV, DEFAULT_MTU};
use crate::Error;

verus! {

/// The mathematical model of the remembered candidate table.
pub open spec fn table_view(t: Seq<(LedgerInfo, PeripheralId)>) -> Seq<(LedgerInfoV, PeripheralId)> {
    t.map_values(|p: (LedgerInfo, PeripheralId)| (p.0@, p.1))
}

/// Transport for listing and connecting to BLE connected Ledger devices.
/// It owns the candidate table filled by the most recent discovery pass;
/// the platform manager and its event channel stay outside the library.
pub struct BleTransport {
    /// Devices remembered from the most recent `list`, with their
    /// peripheral handles.
    pub peripherals: Vec<(LedgerInfo, PeripheralId)>,
}

impl View for BleTransport {
    type V = Seq<(LedgerInfoV, PeripheralId)>;

    open spec fn view(&self) -> Seq<(LedgerInfoV, PeripheralId)> {
        table_view(self.peripherals@)
    }
}

/// Consume events until the radio is powered on. An unsupported or
/// unauthorized radio is fatal, and so is an exhausted stream.
pub open spec fn power_wait(events: Seq<BleEvent>, pos: int) -> (Result<(), Error>, int)
    decreases events.len() - pos,
{
    if pos < 0 || pos >= events.len() {
        (Err(Error::Unknown), events.len() as int)
    } else {
        match power_step(events[pos]) {
            Step::Done(_) => (Ok(()), pos + 1),
            Step::Fail(e) => (Err(e), pos + 1),
            Step::Skip => power_wait(events, pos + 1),
        }
    }
}

/// Consume events until the issued connect is decided for this peripheral.
/// An exhausted stream is a fatal handshake failure.
pub open spec fn connected_wait(events: Seq<BleEvent>, pos: int, pid: PeripheralId) -> (
    Result<(), Error>,
    int,
)
    decreases events.len() - pos,
{
    if pos < 0 || pos >= events.len() {
        (Err(Error::Unknown), events.len() as int)
    } else {
        match connect_step(events[pos], pid) {
            Step::Done(_) => (Ok(()), pos + 1),
            Step::Fail(e) => (Err(e), pos + 1),
            Step::Skip => connected_wait(events, pos + 1, pid),
        }
    }
}

/// Consume events until service discovery is decided for this peripheral.
pub open spec fn services_wait(events: Seq<BleEvent>, pos: int, pid: PeripheralId) -> (
    Result<Seq<u128>, Error>,
    int,
)
    decreases events.len() - pos,
{
    if pos < 0 || pos >= events.len() {
        (Err(Error::Unknown), events.len() as int)
    } else {
        match services_step(events[pos], pid) {
            Step::Done(s) => (Ok(s), pos + 1),
            Step::Fail(e) => (Err(e), pos + 1),
            Step::Skip => services_wait(events, pos + 1, pid),
        }
    }
}

/// Consume events until characteristic discovery is decided.
pub open spec fn characteristics_wait(events: Seq<BleEvent>, pos: int, pid: PeripheralId) -> (
    Result<Seq<u128>, Error>,
    int,
)
    decreases events.len() - pos,
{
    if pos < 0 || pos >= events.len() {
        (Err(Error::Unknown), events.len() as int)
    } else {
        match characteristics_step(events[pos], pid) {
            Step::Done(s) => (Ok(s), pos + 1),
            Step::Fail(e) => (Err(e), pos + 1),
            Step::Skip => characteristics_wait(events, pos + 1, pid),
        }
    }
}

/// Consume events until the subscription to the notify characteristic is
/// decided for this peripheral.
pub open spec fn subscribe_wait(events: Seq<BleEvent>, pos: int, pid: PeripheralId) -> (
    Result<(), Error>,
    int,
)
    decreases events.len() - pos,
{
    if pos < 0 || pos >= events.len() {
        (Err(Error::Unknown), events.len() as int)
    } else {
        match subscribe_step(events[pos], pid) {
            Step::Done(_) => (Ok(()), pos + 1),
            Step::Fail(e) => (Err(e), pos + 1),
            Step::Skip => subscribe_wait(events, pos + 1, pid),
        }
    }
}

/// What one event contributes to a discovery pass: a discovered peripheral
/// whose candidate name classifies to a supported model joins the result;
/// everything else is silently discarded.
pub open spec fn discovered_of(e: BleEvent) -> Seq<(LedgerInfoV, PeripheralId)> {
    match e {
        BleEvent::PeripheralDiscovered { id, name } => match model_of_name(name@) {
            Some(m) => seq![
                (
                    LedgerInfoV {
                        model: m,
                        conn: ConnInfoV::Ble(BleInfoV { name: name@, addr: id }),
                    },
                    id,
                ),
            ],
            None => Seq::empty(),
        },
        _ => Seq::empty(),
    }
}

/// All matches of a discovery pass, in event order.
pub open spec fn scan_matches(events: Seq<BleEvent>) -> Seq<(LedgerInfoV, PeripheralId)>
    decreases events.len(),
{
    if events.len() == 0 {
        Seq::empty()
    } else {
        scan_matches(events.drop_last()) + discovered_of(events.last())
    }
}

/// The first remembered entry whose connection info equals `conn`.
pub open spec fn find_peripheral(
    table: Seq<(LedgerInfoV, PeripheralId)>,
    conn: ConnInfoV,
) -> Option<(LedgerInfoV, PeripheralId)>
    decreases table.len(),
{
    if table.len() == 0 {
        None
    } else if table[0].0.conn == conn {
        Some(table[0])
    } else {
        find_peripheral(table.drop_first(), conn)
    }
}

/// The outcome of a connect call: the remembered table is matched by
/// connection info (`NoDevices` otherwise), the model's GATT entry is
/// looked up (`Unknown` if the model has none), and the four handshake
/// stages run strictly in order, each with its own failure mapping.
pub open spec fn connect_result(
    table: Seq<(LedgerInfoV, PeripheralId)>,
    info: BleInfoV,
    events: Seq<BleEvent>,
) -> Result<BleDeviceV, Error> {
    match find_peripheral(table, ConnInfoV::Ble(info)) {
        None => Err(Error::NoDevices),
        Some(entry) => match ble_spec_of(entry.0.model) {
            None => Err(Error::Unknown),
            Some(gatt) => {
                let pid = entry.1;
                let (c, p1) = connected_wait(events, 0, pid);
                match c {
                    Err(e) => Err(e),
                    Ok(_) => {
                        let (svs, p2) = services_wait(events, p1, pid);
                        match svs {
                            Err(e) => Err(e),
                            Ok(services) => if services.len() == 0 {
                                Err(Error::Unknown)
                            } else {
                                let (chs, p3) = characteristics_wait(events, p2, pid);
                                match chs {
                                    Err(e) => Err(e),
                                    Ok(chars) => if !(chars.contains(gatt.notify_uuid)
                                        && chars.contains(gatt.write_uuid)) {
                                        Err(Error::Unknown)
                                    } else {
                                        let (sb, _p4) = subscribe_wait(events, p3, pid);
                                        match sb {
                                            Err(e) => Err(e),
                                            Ok(_) => Ok(
                                                BleDeviceV {
                                                    info: info,
                                                    mtu: DEFAULT_MTU,
                                                    peripheral: pid,
                                                    write_characteristic: gatt.write_uuid,
                                                    notify_characteristic: gatt.notify_uuid,
                                                },
                                            ),
                                        }
                                    },
                                }
                            },
                        }
                    },
                }
            },
        },
    }
}

/// A table holding no entry with this connection info rejects every lookup.
proof fn lemma_find_none(table: Seq<(LedgerInfoV, PeripheralId)>, conn: ConnInfoV)
    requires
        forall|k: int| 0 <= k < table.len() ==> (#[trigger] table[k]).0.conn != conn,
    ensures
        find_peripheral(table, conn) is None,
    decreases table.len(),
{
    if table.len() > 0 {
        lemma_find_none(table.drop_first(), conn);
    }
}

/// Discovery replace semantics: after a `list` pass, the remembered table
/// holds exactly that pass's matches, so a connect using an info value that
/// the most recent `list` did not return fails with `NoDevices`, whatever
/// events follow.
pub proof fn lemma_stale_info_rejected(
    scan_events: Seq<BleEvent>,
    info: BleInfoV,
    connect_events: Seq<BleEvent>,
)
    requires
        forall|k: int|
            0 <= k < scan_matches(scan_events).len() ==> (#[trigger] scan_matches(
                scan_events,
            )[k]).0.conn != ConnInfoV::Ble(info),
    ensures
        connect_result(scan_matches(scan_events), info, connect_events) == Err::<
            BleDeviceV,
            Error,
        >(Error::NoDevices),
{
    lemma_find_none(scan_matches(scan_events), ConnInfoV::Ble(info));
}

/// Deep copy of a device identity value.
fn dup_info(d: &LedgerInfo) -> (r: LedgerInfo)
    ensures
        r@ == d@,
{
    let model = match &d.model {
        Model::NanoS => Model::NanoS,
        Model::NanoSPlus => Model::NanoSPlus,
        Model::NanoX => Model::NanoX,
        Model::Stax => Model::Stax,
        Model::Unknown(p) => Model::Unknown(*p),
    };
    let conn = match &d.conn {
        ConnInfo::Usb(u) => ConnInfo::Usb(
            crate::usb::UsbInfo { vid: u.vid, pid: u.pid, path: u.path.clone() },
        ),
        ConnInfo::Tcp(t) => ConnInfo::Tcp(*t),
        ConnInfo::Ble(b) => ConnInfo::Ble(BleInfo { name: b.name.clone(), addr: b.addr }),
    };
    LedgerInfo { model, conn }
}

/// The index of the first remembered entry whose connection info equals
/// `conn`, if any.
fn find_index(table: &Vec<(LedgerInfo, PeripheralId)>, conn: &ConnInfo) -> (r: Option<usize>)
    ensures
        match r {
            Some(k) => k < table@.len() && find_peripheral(table_view(table@), conn@) == Some(
                table_view(table@)[k as int],
            ),
            None => find_peripheral(table_view(table@), conn@) is None,
        },
{
    let ghost tv = table_view(table@);
    assert(tv.skip(0) =~= tv);
    let mut i: usize = 0;
    while i < table.len()
        invariant
            i <= tv.len(),
            tv == table_view(table@),
            find_peripheral(tv, conn@) == find_peripheral(tv.skip(i as int), conn@),
        decreases tv.len() - i,
    {
        assert(tv.skip(i as int)[0] == tv[i as int]);
        if table[i].0.conn == *conn {
            assert(tv[i as int].0.conn == conn@);
            return Some(i);
        }
        proof {
            assert(tv.skip(i as int).drop_first() =~= tv.skip(i + 1 as int));
        }
        i += 1;
    }
    proof {
        assert(tv.skip(tv.len() as int) =~= Seq::<(LedgerInfoV, PeripheralId)>::empty());
    }
    None
}

/// Whether a characteristic list carries this UUID.
fn contains_uuid(v: &Vec<u128>, x: u128) -> (r: bool)
    ensures
        r == v@.contains(x),
{
    let mut i: usize = 0;
    while i < v.len()
        invariant
            i <= v@.len(),
            forall|k: int| 0 <= k < i ==> v@[k] != x,
        decreases v@.len() - i,
    {
        if v[i] == x {
            return true;
        }
        i += 1;
    }
    assert(!v@.contains(x));
    false
}

/// Consume events until the issued connect is decided.
fn await_connected(events: &Vec<BleEvent>, pos: usize, pid: PeripheralId) -> (r: (
    Result<(), Error>,
    usize,
))
    requires
        pos <= events@.len(),
    ensures
        (r.0, r.1 as int) == connected_wait(events@, pos as int, pid),
        pos <= r.1 <= events@.len(),
{
    let mut i: usize = pos;
    while i < events.len()
        invariant
            pos <= i <= events@.len(),
            connected_wait(events@, pos as int, pid) == connected_wait(events@, i as int, pid),
        decreases events@.len() - i,
    {
        match connect_outcome(&events[i], pid) {
            Step::Skip => {
                assert(connected_wait(events@, i as int, pid) == connected_wait(
                    events@,
                    i + 1 as int,
                    pid,
                ));
                i += 1;
            },
            Step::Done(_) => {
                return (Ok(()), i + 1);
            },
            Step::Fail(e) => {
                return (Err(e), i + 1);
            },
        }
    }
    (Err(Error::Unknown), i)
}

/// Consume events until service discovery is decided.
fn await_services(events: &Vec<BleEvent>, pos: usize, pid: PeripheralId) -> (r: (
    Result<Vec<u128>, Error>,
    usize,
))
    requires
        pos <= events@.len(),
    ensures
        ({
            let (res, p) = services_wait(events@, pos as int, pid);
            &&& r.1 == p
            &&& match r.0 {
                Ok(v) => res == Ok::<Seq<u128>, Error>(v@),
                Err(e) => res == Err::<Seq<u128>, Error>(e),
            }
        }),
        pos <= r.1 <= events@.len(),
{
    let mut i: usize = pos;
    while i < events.len()
        invariant
            pos <= i <= events@.len(),
            services_wait(events@, pos as int, pid) == services_wait(events@, i as int, pid),
        decreases events@.len() - i,
    {
        match services_outcome(&events[i], pid) {
            Step::Skip => {
                assert(services_wait(events@, i as int, pid) == services_wait(
                    events@,
                    i + 1 as int,
                    pid,
                ));
                i += 1;
            },
            Step::Done(v) => {
                return (Ok(v), i + 1);
            },
            Step::Fail(e) => {
                return (Err(e), i + 1);
            },
        }
    }
    (Err(Error::Unknown), i)
}

/// Consume events until characteristic discovery is decided.
fn await_characteristics(events: &Vec<BleEvent>, pos: usize, pid: PeripheralId) -> (r: (
    Result<Vec<u128>, Error>,
    usize,
))
    requires
        pos <= events@.len(),
    ensures
        ({
            let (res, p) = characteristics_wait(events@, pos as int, pid);
            &&& r.1 == p
            &&& match r.0 {
                Ok(v) => res == Ok::<Seq<u128>, Error>(v@),
                Err(e) => res == Err::<Seq<u128>, Error>(e),
            }
        }),
        pos <= r.1 <= events@.len(),
{
    let mut i: usize = pos;
    while i < events.len()
        invariant
            pos <= i <= events@.len(),
            characteristics_wait(events@, pos as int, pid) == characteristics_wait(
                events@,
                i as int,
                pid,
            ),
        decreases events@.len() - i,
    {
        match characteristics_outcome(&events[i], pid) {
            Step::Skip => {
                assert(characteristics_wait(events@, i as int, pid) == characteristics_wait(
                    events@,
                    i + 1 as int,
                    pid,
                ));
                i += 1;
            },
            Step::Done(v) => {
                return (Ok(v), i + 1);
            },
            Step::Fail(e) => {
                return (Err(e), i + 1);
            },
        }
    }
    (Err(Error::Unknown), i)
}

/// Consume events until the subscription request is decided.
fn await_subscribed(events: &Vec<BleEvent>, pos: usize, pid: PeripheralId) -> (r: (
    Result<(), Error>,
    usize,
))
    requires
        pos <= events@.len(),
    ensures
        (r.0, r.1 as int) == subscribe_wait(events@, pos as int, pid),
        pos <= r.1 <= events@.len(),
{
    let mut i: usize = pos;
    while i < events.len()
        invariant
            pos <= i <= events@.len(),
            subscribe_wait(events@, pos as int, pid) == subscribe_wait(events@, i as int, pid),
        decreases events@.len() - i,
    {
        match subscribe_outcome(&events[i], pid) {
            Step::Skip => {
                assert(subscribe_wait(events@, i as int, pid) == subscribe_wait(
                    events@,
                    i + 1 as int,
                    pid,
                ));
                i += 1;
            },
            Step::Done(_) => {
                return (Ok(()), i + 1);
            },
            Step::Fail(e) => {
                return (Err(e), i + 1);
            },
        }
    }
    (Err(Error::Unknown), i)
}

impl BleTransport {
    /// Create a transport with an empty candidate table. The platform
    /// manager and its event channel live with the caller.
    pub fn new() -> (r: BleTransport)
        ensures
            r@ == Seq::<(LedgerInfoV, PeripheralId)>::empty(),
    {
        let r = BleTransport { peripherals: Vec::new() };
        proof {
            assert(r@ =~= Seq::<(LedgerInfoV, PeripheralId)>::empty());
        }
        r
    }

    /// Consume radio state events until the radio is powered on, waiting
    /// through transient powered-off states.
    pub fn wait_for_power_on(&self, events: &Vec<BleEvent>, pos: usize) -> (r: (
        Result<(), Error>,
        usize,
    ))
        requires
            pos <= events@.len(),
        ensures
            (r.0, r.1 as int) == power_wait(events@, pos as int),
            pos <= r.1 <= events@.len(),
    {
        let mut i: usize = pos;
        while i < events.len()
            invariant
                pos <= i <= events@.len(),
                power_wait(events@, pos as int) == power_wait(events@, i as int),
            decreases events@.len() - i,
        {
            match power_outcome(&events[i]) {
                Step::Skip => {
                    assert(power_wait(events@, i as int) == power_wait(events@, i + 1 as int));
                    i += 1;
                },
                Step::Done(_) => {
                    return (Ok(()), i + 1);
                },
                Step::Fail(e) => {
                    return (Err(e), i + 1);
                },
            }
        }
        (Err(Error::Unknown), i)
    }

    /// Classify the buffered discovery events of one scan window: every
    /// discovered peripheral whose candidate name carries a supported model
    /// substring is returned with its handle; the rest are discarded.
    pub fn scan_internal(&self, events: &Vec<BleEvent>) -> (r: Vec<(LedgerInfo, PeripheralId)>)
        ensures
            table_view(r@) == scan_matches(events@),
    {
        let mut r: Vec<(LedgerInfo, PeripheralId)> = Vec::new();
        assert(table_view(r@) =~= scan_matches(events@.take(0)));
        let mut i: usize = 0;
        while i < events.len()
            invariant
                i <= events@.len(),
                table_view(r@) == scan_matches(events@.take(i as int)),
            decreases events@.len() - i,
        {
            proof {
                assert(events@.take(i + 1 as int).drop_last() =~= events@.take(i as int));
                assert(events@.take(i + 1 as int).last() == events@[i as int]);
                assert(scan_matches(events@.take(i + 1 as int)) == scan_matches(
                    events@.take(i as int),
                ) + discovered_of(events@[i as int]));
            }
            let ghost pre = table_view(r@);
            match &events[i] {
                BleEvent::PeripheralDiscovered { id, name } => {
                    match classify_candidate(name.as_str()) {
                        Some(model) => {
                            let entry = (
                                LedgerInfo {
                                    model,
                                    conn: ConnInfo::Ble(
                                        BleInfo { name: name.clone(), addr: *id },
                                    ),
                                },
                                *id,
                            );
                            r.push(entry);
                            assert(table_view(r@) =~= pre + discovered_of(events@[i as int]));
                        },
                        None => {
                            assert(table_view(r@) =~= pre + discovered_of(events@[i as int]));
                        },
                    }
                },
                _ => {
                    assert(table_view(r@) =~= pre + discovered_of(events@[i as int]));
                },
            }
            i += 1;
        }
        assert(events@.take(events@.len() as int) =~= events@);
        r
    }

    /// Run one discovery pass: classify the buffered events, replace the
    /// remembered candidate table with the new result set (stale entries are
    /// dropped), and return the identity half of each match.
    pub fn list(&mut self, events: &Vec<BleEvent>) -> (r: Vec<LedgerInfo>)
        ensures
            final(self)@ == scan_matches(events@),
            r@.len() == scan_matches(events@).len(),
            forall|k: int|
                0 <= k < r@.len() ==> (#[trigger] r@[k])@ == scan_matches(events@)[k].0,
    {
        let devices = self.scan_internal(events);
        let mut infos: Vec<LedgerInfo> = Vec::new();
        let mut i: usize = 0;
        while i < devices.len()
            invariant
                i <= devices@.len(),
                infos@.len() == i,
                table_view(devices@) == scan_matches(events@),
                forall|k: int|
                    0 <= k < i ==> (#[trigger] infos@[k])@ == table_view(devices@)[k].0,
            decreases devices@.len() - i,
        {
            let info = dup_info(&devices[i].0);
            infos.push(info);
            i += 1;
        }
        self.peripherals = devices;
        infos
    }

    /// Connect to a previously listed device: match the remembered table by
    /// connection info, look up the model's GATT entry, then drive the
    /// four handshake stages in order. Success hands over a session holding
    /// the peripheral, both characteristics, and the default MTU.
    pub fn connect(&self, info: BleInfo, events: &Vec<BleEvent>) -> (r: Result<BleDevice, Error>)
        ensures
            match r {
                Ok(d) => connect_result(self@, info@, events@) == Ok::<BleDeviceV, Error>(d@)
                    && d.wf(),
                Err(e) => connect_result(self@, info@, events@) == Err::<BleDeviceV, Error>(e),
            },
    {
        let conn = ConnInfo::Ble(BleInfo { name: info.name.clone(), addr: info.addr });
        assert(conn@ == ConnInfoV::Ble(info@));
        // Match known peripherals using the provided device info.
        let k = match find_index(&self.peripherals, &conn) {
            Some(k) => k,
            None => {
                return Err(Error::NoDevices);
            },
        };
        let pid = self.peripherals[k].1;
        // Fetch the GATT entry for the matched model.
        let gatt = match ble_spec_for(&self.peripherals[k].0.model) {
            Some(g) => g,
            None => {
                return Err(Error::Unknown);
            },
        };
        // Wait for the connection.
        let (c, p1) = await_connected(events, 0, pid);
        if let Err(e) = c {
            return Err(e);
        }
        // Wait for service discovery, scoped to the model's service.
        let (svs, p2) = await_services(events, p1, pid);
        let services = match svs {
            Ok(v) => v,
            Err(e) => {
                return Err(e);
            },
        };
        if services.len() == 0 {
            return Err(Error::Unknown);
        }
        // Wait for characteristic discovery and resolve both endpoints.
        let (chs, p3) = await_characteristics(events, p2, pid);
        let chars = match chs {
            Ok(v) => v,
            Err(e) => {
                return Err(e);
            },
        };
        let has_notify = contains_uuid(&chars, gatt.notify_uuid);
        let has_write = contains_uuid(&chars, gatt.write_uuid);
        if !(has_notify && has_write) {
            return Err(Error::Unknown);
        }
        // Subscribe to notifications.
        let (sb, _p4) = await_subscribed(events, p3, pid);
        if let Err(e) = sb {
            return Err(e);
        }
        Ok(
            BleDevice {
                info,
                mtu: DEFAULT_MTU,
                peripheral: pid,
                write_characteristic: gatt.write_uuid,
                notify_characteristic: gatt.notify_uuid,
            },
        )
    }
}

impl crate::Transport for BleTransport {
    type Filters = ();

    type Info = BleInfo;

    type Device = BleDevice;

    type Event = BleEvent;

    /// List BLE connected ledger devices discovered by this pass.
    fn list(&mut self, _filters: (), events: &Vec<BleEvent>) -> Result<Vec<LedgerInfo>, Error> {
        Ok(BleTransport::list(self, events))
    }

    /// Connect to a specific, previously listed ledger device.
    fn connect(&mut self, info: BleInfo, events: &Vec<BleEvent>) -> Result<BleDevice, Error> {
        BleTransport::connect(self, info, events)
    }
}

} // verus!
