//! BLE value types: peripheral identity, per-model GATT capability table,
//! and the plain-value model of platform BLE events.

use vstd::prelude::*;

use crate::info::Model;
use crate::Error;

verus! {

/// Platform identifier of a discovered BLE peripheral (a 128-bit UUID).
#[derive(Clone, Copy, Debug, PartialEq, Eq, Structural)]
pub struct PeripheralId {
    pub id: u128,
}

/// BLE specific device information. Equality drives peripheral matching
/// at connect time.
#[derive(Clone, Debug)]
pub struct BleInfo {
    /// Advertised device name.
    pub name: String,
    /// Platform peripheral identifier.
    pub addr: PeripheralId,
}

/// Mathematical model of [`BleInfo`].
pub struct BleInfoV {
    pub name: Seq<char>,
    pub addr: PeripheralId,
}

impl View for BleInfo {
    type V = BleInfoV;

    open spec fn view(&self) -> BleInfoV {
        BleInfoV { name: self.name@, addr: self.addr }
    }
}

impl PartialEq for BleInfo {
    fn eq(&self, other: &BleInfo) -> bool {
        self.name == other.name && self.addr == other.addr
    }
}

impl vstd::std_specs::cmp::PartialEqSpecImpl for BleInfo {
    open spec fn obeys_eq_spec() -> bool {
        true
    }

    open spec fn eq_spec(&self, other: &BleInfo) -> bool {
        self@ == other@
    }
}

impl BleInfo {
    /// The display form of BLE info is the advertised name.
    pub fn display_string(&self) -> (r: String)
        ensures
            r@ == self.name@,
    {
        self.name.clone()
    }
}

/// GATT capability entry for one BLE-capable device model: the service and
/// the characteristics the framing protocol uses, as 128-bit UUID values.
#[derive(Clone, Debug, PartialEq, Eq, Structural)]
pub struct BleSpecEntry {
    pub model: Model,
    pub service_uuid: u128,
    pub notify_uuid: u128,
    pub write_uuid: u128,
    /// Write-command characteristic; fixed per model, unused by reassembly.
    pub write_cmd_uuid: u128,
}

/// The capability table, as a function from model to entry. Every model
/// reachable through BLE discovery has exactly one entry.
pub open spec fn ble_spec_of(model: Model) -> Option<BleSpecEntry> {
    match model {
        Model::NanoX => Some(
            BleSpecEntry {
                model: Model::NanoX,
                service_uuid: 0x13d63400_2c97_0004_0000_4c6564676572,
                notify_uuid: 0x13d63400_2c97_0004_0001_4c6564676572,
                write_uuid: 0x13d63400_2c97_0004_0002_4c6564676572,
                write_cmd_uuid: 0x13d63400_2c97_0004_0003_4c6564676572,
            },
        ),
        Model::Stax => Some(
            BleSpecEntry {
                model: Model::Stax,
                service_uuid: 0x13d63400_2c97_6004_0000_4c6564676572,
                notify_uuid: 0x13d63400_2c97_6004_0001_4c6564676572,
                write_uuid: 0x13d63400_2c97_6004_0002_4c6564676572,
                write_cmd_uuid: 0x13d63400_2c97_6004_0003_4c6564676572,
            },
        ),
        _ => None,
    }
}

/// Look up the GATT capability entry for a device model.
pub fn ble_spec_for(model: &Model) -> (r: Option<BleSpecEntry>)
    ensures
        r == ble_spec_of(*model),
{
    match model {
        Model::NanoX => Some(
            BleSpecEntry {
                model: Model::NanoX,
                service_uuid: 0x13d63400_2c97_0004_0000_4c6564676572,
                notify_uuid: 0x13d63400_2c97_0004_0001_4c6564676572,
                write_uuid: 0x13d63400_2c97_0004_0002_4c6564676572,
                write_cmd_uuid: 0x13d63400_2c97_0004_0003_4c6564676572,
            },
        ),
        Model::Stax => Some(
            BleSpecEntry {
                model: Model::Stax,
                service_uuid: 0x13d63400_2c97_6004_0000_4c6564676572,
                notify_uuid: 0x13d63400_2c97_6004_0001_4c6564676572,
                write_uuid: 0x13d63400_2c97_6004_0002_4c6564676572,
                write_cmd_uuid: 0x13d63400_2c97_6004_0003_4c6564676572,
            },
        ),
        _ => None,
    }
}

/// Power state of the platform radio.
#[derive(Clone, Copy, Debug, PartialEq, Eq, Structural)]
pub enum PowerState {
    Unknown,
    Resetting,
    Unsupported,
    Unauthorized,
    PoweredOff,
    PoweredOn,
}

/// Plain-value model of one event delivered by the platform BLE layer.
///
/// The platform pushes these into a first-in-first-out channel; the protocol
/// consumes them in order. `Deadline` marks the expiry of the caller-supplied
/// exchange timeout: it is meaningful only while a response is awaited.
/// Platform-level failures carry no data and appear as `Err(())`.
#[derive(Debug)]
pub enum BleEvent {
    /// The radio changed power state.
    ManagerStateChanged { state: PowerState },
    /// A peripheral was discovered while scanning; `name` is the candidate
    /// display name (the advertised local name, or the identifier rendered
    /// as text when no name was advertised).
    PeripheralDiscovered { id: PeripheralId, name: String },
    /// An issued connect completed.
    PeripheralConnected { id: PeripheralId },
    /// An issued connect failed.
    PeripheralConnectFailed { id: PeripheralId },
    /// A service discovery pass finished, yielding the matched service UUIDs.
    ServicesDiscovered { id: PeripheralId, services: Result<Vec<u128>, ()> },
    /// A characteristic discovery pass finished, yielding characteristic UUIDs.
    CharacteristicsDiscovered { id: PeripheralId, characteristics: Result<Vec<u128>, ()> },
    /// A subscribe or unsubscribe request completed.
    SubscriptionChangeResult { id: PeripheralId, characteristic: u128, result: Result<(), ()> },
    /// A characteristic write completed.
    WriteCharacteristicResult { id: PeripheralId, characteristic: u128, result: Result<(), ()> },
    /// A notification frame arrived on a subscribed characteristic.
    CharacteristicValue { id: PeripheralId, characteristic: u128, value: Result<Vec<u8>, ()> },
    /// The caller-supplied exchange deadline expired.
    Deadline,
}

/// Outcome of holding one event against one wait stage: the event is not the
/// one awaited, or it completes the stage, or it fails the stage.
pub enum Step<T> {
    Skip,
    Done(T),
    Fail(Error),
}

/// How the wait for a powered-on radio treats one event: powered on succeeds,
/// an unsupported or unauthorized radio is fatal, every other event (including
/// transient powered-off states) is waited through.
pub open spec fn power_step(e: BleEvent) -> Step<()> {
    match e {
        BleEvent::ManagerStateChanged { state } => match state {
            PowerState::PoweredOn => Step::Done(()),
            PowerState::Unsupported => Step::Fail(Error::Unknown),
            PowerState::Unauthorized => Step::Fail(Error::Unknown),
            _ => Step::Skip,
        },
        _ => Step::Skip,
    }
}

/// How the wait for a connect result treats one event: only connect outcomes
/// for this peripheral are relevant; a failed connect is fatal.
pub open spec fn connect_step(e: BleEvent, pid: PeripheralId) -> Step<()> {
    match e {
        BleEvent::PeripheralConnected { id } => if id == pid {
            Step::Done(())
        } else {
            Step::Skip
        },
        BleEvent::PeripheralConnectFailed { id } => if id == pid {
            Step::Fail(Error::Unknown)
        } else {
            Step::Skip
        },
        _ => Step::Skip,
    }
}

/// How the wait for service discovery treats one event: the first discovery
/// result for this peripheral decides; a platform discovery error is fatal.
pub open spec fn services_step(e: BleEvent, pid: PeripheralId) -> Step<Seq<u128>> {
    match e {
        BleEvent::ServicesDiscovered { id, services } => if id == pid {
            match services {
                Ok(s) => Step::Done(s@),
                Err(_) => Step::Fail(Error::Unknown),
            }
        } else {
            Step::Skip
        },
        _ => Step::Skip,
    }
}

/// How the wait for characteristic discovery treats one event.
pub open spec fn characteristics_step(e: BleEvent, pid: PeripheralId) -> Step<Seq<u128>> {
    match e {
        BleEvent::CharacteristicsDiscovered { id, characteristics } => if id == pid {
            match characteristics {
                Ok(s) => Step::Done(s@),
                Err(_) => Step::Fail(Error::Unknown),
            }
        } else {
            Step::Skip
        },
        _ => Step::Skip,
    }
}

/// How the handshake's subscription wait treats one event: any subscription
/// change for this peripheral decides, whichever characteristic it names.
pub open spec fn subscribe_step(e: BleEvent, pid: PeripheralId) -> Step<()> {
    match e {
        BleEvent::SubscriptionChangeResult { id, characteristic: _, result } => if id == pid {
            match result {
                Ok(_) => Step::Done(()),
                Err(_) => Step::Fail(Error::Unknown),
            }
        } else {
            Step::Skip
        },
        _ => Step::Skip,
    }
}

/// How the read path's subscription wait treats one event: only a change on
/// the awaited characteristic decides, and the exchange deadline may expire.
pub open spec fn read_sub_step(e: BleEvent, pid: PeripheralId, cid: u128) -> Step<()> {
    match e {
        BleEvent::SubscriptionChangeResult { id, characteristic, result } => if id == pid
            && characteristic == cid {
            match result {
                Ok(_) => Step::Done(()),
                Err(_) => Step::Fail(Error::Unknown),
            }
        } else {
            Step::Skip
        },
        BleEvent::Deadline => Step::Fail(Error::Timeout),
        _ => Step::Skip,
    }
}

/// How the wait for a chunk's write confirmation treats one event. No
/// deadline is armed while writing, so a `Deadline` marker is waited through.
pub open spec fn write_ack_step(e: BleEvent, pid: PeripheralId, cid: u128) -> Step<()> {
    match e {
        BleEvent::WriteCharacteristicResult { id, characteristic, result } => if id == pid
            && characteristic == cid {
            match result {
                Ok(_) => Step::Done(()),
                Err(_) => Step::Fail(Error::Unknown),
            }
        } else {
            Step::Skip
        },
        _ => Step::Skip,
    }
}

/// How the wait for a notification frame treats one event: a frame on the
/// awaited characteristic decides, a platform error is fatal, and the
/// exchange deadline may expire.
pub open spec fn value_step(e: BleEvent, pid: PeripheralId, cid: u128) -> Step<Seq<u8>> {
    match e {
        BleEvent::CharacteristicValue { id, characteristic, value } => if id == pid
            && characteristic == cid {
            match value {
                Ok(v) => Step::Done(v@),
                Err(_) => Step::Fail(Error::Unknown),
            }
        } else {
            Step::Skip
        },
        BleEvent::Deadline => Step::Fail(Error::Timeout),
        _ => Step::Skip,
    }
}

/// Copy a vector of plain values.
fn copy_vec<T: Copy>(v: &Vec<T>) -> (r: Vec<T>)
    ensures
        r@ == v@,
{
    let mut r: Vec<T> = Vec::new();
    let mut i: usize = 0;
    while i < v.len()
        invariant
            i <= v@.len(),
            r@ == v@.take(i as int),
        decreases v@.len() - i,
    {
        assert(v@.take(i + 1 as int) =~= v@.take(i as int).push(v@[i as int]));
        r.push(v[i]);
        i += 1;
    }
    assert(v@.take(v@.len() as int) =~= v@);
    r
}

/// Classify one event for the powered-on wait.
pub fn power_outcome(e: &BleEvent) -> (r: Step<()>)
    ensures
        r == power_step(*e),
{
    match e {
        BleEvent::ManagerStateChanged { state } => match state {
            PowerState::PoweredOn => Step::Done(()),
            PowerState::Unsupported => Step::Fail(Error::Unknown),
            PowerState::Unauthorized => Step::Fail(Error::Unknown),
            _ => Step::Skip,
        },
        _ => Step::Skip,
    }
}

/// Classify one event for the connect wait.
pub fn connect_outcome(e: &BleEvent, pid: PeripheralId) -> (r: Step<()>)
    ensures
        r == connect_step(*e, pid),
{
    match e {
        BleEvent::PeripheralConnected { id } => if *id == pid {
            Step::Done(())
        } else {
            Step::Skip
        },
        BleEvent::PeripheralConnectFailed { id } => if *id == pid {
            Step::Fail(Error::Unknown)
        } else {
            Step::Skip
        },
        _ => Step::Skip,
    }
}

/// Classify one event for the service discovery wait.
pub fn services_outcome(e: &BleEvent, pid: PeripheralId) -> (r: Step<Vec<u128>>)
    ensures
        match r {
            Step::Skip => services_step(*e, pid) is Skip,
            Step::Done(v) => services_step(*e, pid) == Step::Done(v@),
            Step::Fail(err) => services_step(*e, pid) == Step::Fail::<Seq<u128>>(err),
        },
{
    match e {
        BleEvent::ServicesDiscovered { id, services } => if *id == pid {
            match services {
                Ok(s) => Step::Done(copy_vec(s)),
                Err(_) => Step::Fail(Error::Unknown),
            }
        } else {
            Step::Skip
        },
        _ => Step::Skip,
    }
}

/// Classify one event for the characteristic discovery wait.
pub fn characteristics_outcome(e: &BleEvent, pid: PeripheralId) -> (r: Step<Vec<u128>>)
    ensures
        match r {
            Step::Skip => characteristics_step(*e, pid) is Skip,
            Step::Done(v) => characteristics_step(*e, pid) == Step::Done(v@),
            Step::Fail(err) => characteristics_step(*e, pid) == Step::Fail::<Seq<u128>>(err),
        },
{
    match e {
        BleEvent::CharacteristicsDiscovered { id, characteristics } => if *id == pid {
            match characteristics {
                Ok(s) => Step::Done(copy_vec(s)),
                Err(_) => Step::Fail(Error::Unknown),
            }
        } else {
            Step::Skip
        },
        _ => Step::Skip,
    }
}

/// Classify one event for the handshake's subscription wait.
pub fn subscribe_outcome(e: &BleEvent, pid: PeripheralId) -> (r: Step<()>)
    ensures
        r == subscribe_step(*e, pid),
{
    match e {
        BleEvent::SubscriptionChangeResult { id, characteristic: _, result } => if *id == pid {
            match result {
                Ok(_) => Step::Done(()),
                Err(_) => Step::Fail(Error::Unknown),
            }
        } else {
            Step::Skip
        },
        _ => Step::Skip,
    }
}

/// Classify one event for the read path's subscription wait.
pub fn read_sub_outcome(e: &BleEvent, pid: PeripheralId, cid: u128) -> (r: Step<()>)
    ensures
        r == read_sub_step(*e, pid, cid),
{
    match e {
        BleEvent::SubscriptionChangeResult { id, characteristic, result } => if *id == pid
            && *characteristic == cid {
            match result {
                Ok(_) => Step::Done(()),
                Err(_) => Step::Fail(Error::Unknown),
            }
        } else {
            Step::Skip
        },
        BleEvent::Deadline => Step::Fail(Error::Timeout),
        _ => Step::Skip,
    }
}

/// Classify one event for a chunk's write confirmation wait.
pub fn write_ack_outcome(e: &BleEvent, pid: PeripheralId, cid: u128) -> (r: Step<()>)
    ensures
        r == write_ack_step(*e, pid, cid),
{
    match e {
        BleEvent::WriteCharacteristicResult { id, characteristic, result } => if *id == pid
            && *characteristic == cid {
            match result {
                Ok(_) => Step::Done(()),
                Err(_) => Step::Fail(Error::Unknown),
            }
        } else {
            Step::Skip
        },
        _ => Step::Skip,
    }
}

/// Classify one event for a notification frame wait.
pub fn value_outcome(e: &BleEvent, pid: PeripheralId, cid: u128) -> (r: Step<Vec<u8>>)
    ensures
        match r {
            Step::Skip => value_step(*e, pid, cid) is Skip,
            Step::Done(v) => value_step(*e, pid, cid) == Step::Done(v@),
            Step::Fail(err) => value_step(*e, pid, cid) == Step::Fail::<Seq<u8>>(err),
        },
{
    match e {
        BleEvent::CharacteristicValue { id, characteristic, value } => if *id == pid
            && *characteristic == cid {
            match value {
                Ok(v) => Step::Done(copy_vec(v)),
                Err(_) => Step::Fail(Error::Unknown),
            }
        } else {
            Step::Skip
        },
        BleEvent::Deadline => Step::Fail(Error::Timeout),
        _ => Step::Skip,
    }
}

/// The model a candidate peripheral name classifies to: a name carrying
/// `"Nano X"` is a Nano X, one carrying `"Stax"` is a Stax, and any other
/// candidate is silently discarded by discovery.
pub open spec fn model_of_name(name: Seq<char>) -> Option<Model> {
    if crate::text::seq_contains(name, "Nano X"@) {
        Some(Model::NanoX)
    } else if crate::text::seq_contains(name, "Stax"@) {
        Some(Model::Stax)
    } else {
        None
    }
}

/// Classify a candidate peripheral name against the supported BLE models.
pub fn classify_candidate(name: &str) -> (r: Option<Model>)
    ensures
        r == model_of_name(name@),
{
    if crate::text::str_contains(name, "Nano X") {
        Some(Model::NanoX)
    } else if crate::text::str_contains(name, "Stax") {
        Some(Model::Stax)
    } else {
        None
    }
}

/// Every model that BLE discovery can produce has a GATT capability entry:
/// a successful classification never fails the spec lookup at connect time.
pub proof fn lemma_discoverable_model_has_spec(name: Seq<char>)
    ensures
        model_of_name(name) matches Some(m) ==> ble_spec_of(m) is Some,
{
}

} // verus!
