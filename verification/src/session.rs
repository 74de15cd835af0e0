//! The BLE device session: outbound chunked writes with per-chunk
//! confirmation, inbound notification reassembly, and the exchange operation
//! that ties them together.
//!
//! Write policy: chunks are written in ascending sequence order and each
//! write is confirmed before the next chunk is sent; an event stream that
//! ends while a confirmation is pending lets the remaining writes proceed
//! unconfirmed, exactly as an exhausted platform channel would.

use vstd::prelude::*;

use crate::ble::{
    read_sub_outcome, read_sub_step, value_outcome, value_step, write_ack_outcome, write_ack_step,
    BleEvent, BleInfo, BleInfoV, PeripheralId, Step,
};
use crate::framing::{
    chunk_count, chunk_payload, continuation_body, first_frame_result, message_body, parse_first_frame,
    parse_continuation_frame, RESPONSE_TAG,
};
use crate::Error;

verus! {

/// MTU assumed when none was negotiated.
pub const DEFAULT_MTU: u8 = 23;

/// BLE connected ledger device: the peripheral and characteristic handles
/// resolved by a successful connect handshake, plus the negotiated MTU.
pub struct BleDevice {
    /// The discovery info this session was connected from.
    pub info: BleInfo,
    /// Negotiated maximum payload per write.
    pub mtu: u8,
    /// The peripheral the session owns.
    pub peripheral: PeripheralId,
    /// Characteristic written with outbound frames.
    pub write_characteristic: u128,
    /// Characteristic whose notifications carry the response.
    pub notify_characteristic: u128,
}

/// Mathematical model of [`BleDevice`].
pub struct BleDeviceV {
    pub info: BleInfoV,
    pub mtu: u8,
    pub peripheral: PeripheralId,
    pub write_characteristic: u128,
    pub notify_characteristic: u128,
}

impl View for BleDevice {
    type V = BleDeviceV;

    open spec fn view(&self) -> BleDeviceV {
        BleDeviceV {
            info: self.info@,
            mtu: self.mtu,
            peripheral: self.peripheral,
            write_characteristic: self.write_characteristic,
            notify_characteristic: self.notify_characteristic,
        }
    }
}

impl BleDevice {
    /// A session is well formed when its MTU leaves room for a chunk after
    /// the three header bytes.
    pub open spec fn wf(self) -> bool {
        self.mtu > 3
    }
}

/// Consume events until one decides a chunk's write confirmation. An
/// exhausted stream leaves the write unconfirmed and lets it pass.
pub open spec fn write_ack_wait(events: Seq<BleEvent>, pos: int, pid: PeripheralId, cid: u128) -> (
    Result<(), Error>,
    int,
)
    decreases events.len() - pos,
{
    if pos < 0 || pos >= events.len() {
        (Ok(()), events.len() as int)
    } else {
        match write_ack_step(events[pos], pid, cid) {
            Step::Done(_) => (Ok(()), pos + 1),
            Step::Fail(e) => (Err(e), pos + 1),
            Step::Skip => write_ack_wait(events, pos + 1, pid, cid),
        }
    }
}

/// Consume events through `k` write confirmations, one per chunk, stopping
/// at the first failed write.
pub open spec fn write_acks_wait(
    events: Seq<BleEvent>,
    pos: int,
    pid: PeripheralId,
    cid: u128,
    k: int,
) -> (Result<(), Error>, int)
    decreases k,
{
    if k <= 0 {
        (Ok(()), pos)
    } else {
        let (r, p) = write_ack_wait(events, pos, pid, cid);
        match r {
            Ok(_) => write_acks_wait(events, p, pid, cid, k - 1),
            Err(e) => (Err(e), p),
        }
    }
}

/// Consume events until one decides the read path's subscription request.
/// An exhausted stream falls through to the response wait, which then
/// reports the closed channel.
pub open spec fn read_sub_wait(events: Seq<BleEvent>, pos: int, pid: PeripheralId, cid: u128) -> (
    Result<(), Error>,
    int,
)
    decreases events.len() - pos,
{
    if pos < 0 || pos >= events.len() {
        (Ok(()), events.len() as int)
    } else {
        match read_sub_step(events[pos], pid, cid) {
            Step::Done(_) => (Ok(()), pos + 1),
            Step::Fail(e) => (Err(e), pos + 1),
            Step::Skip => read_sub_wait(events, pos + 1, pid, cid),
        }
    }
}

/// Consume events until a notification frame arrives on the awaited
/// characteristic. An exhausted stream is a closed channel.
pub open spec fn value_wait(events: Seq<BleEvent>, pos: int, pid: PeripheralId, cid: u128) -> (
    Result<Seq<u8>, Error>,
    int,
)
    decreases events.len() - pos,
{
    if pos < 0 || pos >= events.len() {
        (Err(Error::Closed), events.len() as int)
    } else {
        match value_step(events[pos], pid, cid) {
            Step::Done(frame) => (Ok(frame), pos + 1),
            Step::Fail(e) => (Err(e), pos + 1),
            Step::Skip => value_wait(events, pos + 1, pid, cid),
        }
    }
}

/// Append continuation frames to the accumulated response until it reaches
/// the declared length. Frames contribute their bytes past the five-byte
/// header; the result may overshoot the declared length and is returned
/// whole, without truncation.
pub open spec fn reassemble(
    events: Seq<BleEvent>,
    pos: int,
    pid: PeripheralId,
    cid: u128,
    acc: Seq<u8>,
    need: int,
) -> (Result<Seq<u8>, Error>, int)
    decreases events.len() - pos,
{
    if acc.len() >= need {
        (Ok(acc), pos)
    } else if pos < 0 || pos >= events.len() {
        (Err(Error::Closed), events.len() as int)
    } else {
        match value_step(events[pos], pid, cid) {
            Step::Done(frame) => reassemble(events, pos + 1, pid, cid, acc + continuation_body(frame), need),
            Step::Fail(e) => (Err(e), pos + 1),
            Step::Skip => reassemble(events, pos + 1, pid, cid, acc, need),
        }
    }
}

/// The whole inbound read: enable notifications, take the first frame,
/// validate it, then accumulate continuation frames to the declared length.
pub open spec fn read_data_wait(events: Seq<BleEvent>, pos: int, pid: PeripheralId, cid: u128) -> (
    Result<Seq<u8>, Error>,
    int,
)
{
    let (sub, p1) = read_sub_wait(events, pos, pid, cid);
    match sub {
        Err(e) => (Err(e), p1),
        Ok(_) => {
            let (first, p2) = value_wait(events, p1, pid, cid);
            match first {
                Err(e) => (Err(e), p2),
                Ok(frame) => match first_frame_result(frame) {
                    Err(e) => (Err(e), p2),
                    Ok(parts) => reassemble(events, p2, pid, cid, parts.1, parts.0 as int),
                },
            }
        },
    }
}

/// The whole exchange: write the command under the response tag, confirming
/// each chunk, then read the reassembled response. The deadline marker is
/// meaningful only on the read side, as the timeout wraps only the read.
pub open spec fn exchange_result(d: BleDeviceV, command: Seq<u8>, events: Seq<BleEvent>) -> Result<
    Seq<u8>,
    Error,
> {
    let n = chunk_count(command.len() as int + 2, d.mtu - 3);
    let (w, p1) = write_acks_wait(events, 0, d.peripheral, d.write_characteristic, n);
    match w {
        Err(e) => Err(e),
        Ok(_) => read_data_wait(events, p1, d.peripheral, d.notify_characteristic).0,
    }
}

/// A decided frame wait consumes at least one event, or exhausts the stream
/// with a closed channel.
proof fn lemma_value_wait_advances(events: Seq<BleEvent>, pos: int, pid: PeripheralId, cid: u128)
    requires
        0 <= pos <= events.len(),
    ensures
        ({
            let (v, p) = value_wait(events, pos, pid, cid);
            pos <= p <= events.len() && (v is Ok ==> p > pos)
        }),
    decreases events.len() - pos,
{
    if pos < events.len() {
        match value_step(events[pos], pid, cid) {
            Step::Skip => {
                lemma_value_wait_advances(events, pos + 1, pid, cid);
            },
            _ => {},
        }
    }
}

/// Stepping the reassembly by one decided frame wait agrees with the
/// recursive definition.
proof fn lemma_reassemble_step(
    events: Seq<BleEvent>,
    pos: int,
    pid: PeripheralId,
    cid: u128,
    acc: Seq<u8>,
    need: int,
)
    requires
        0 <= pos <= events.len(),
        acc.len() < need,
    ensures
        ({
            let (v, p) = value_wait(events, pos, pid, cid);
            match v {
                Ok(frame) => reassemble(events, pos, pid, cid, acc, need) == reassemble(
                    events,
                    p,
                    pid,
                    cid,
                    acc + continuation_body(frame),
                    need,
                ),
                Err(e) => reassemble(events, pos, pid, cid, acc, need) == (
                    Err::<Seq<u8>, Error>(e),
                    p,
                ),
            }
        }),
    decreases events.len() - pos,
{
    if pos < events.len() {
        match value_step(events[pos], pid, cid) {
            Step::Skip => {
                lemma_reassemble_step(events, pos + 1, pid, cid, acc, need);
            },
            _ => {},
        }
    }
}

/// Consume events until one decides a chunk's write confirmation.
fn await_write_ack(events: &Vec<BleEvent>, pos: usize, pid: PeripheralId, cid: u128) -> (r: (
    Result<(), Error>,
    usize,
))
    requires
        pos <= events@.len(),
    ensures
        (r.0, r.1 as int) == write_ack_wait(events@, pos as int, pid, cid),
        pos <= r.1 <= events@.len(),
{
    let mut i: usize = pos;
    while i < events.len()
        invariant
            pos <= i <= events@.len(),
            write_ack_wait(events@, pos as int, pid, cid) == write_ack_wait(
                events@,
                i as int,
                pid,
                cid,
            ),
        decreases events@.len() - i,
    {
        match write_ack_outcome(&events[i], pid, cid) {
            Step::Skip => {
                assert(write_ack_wait(events@, i as int, pid, cid) == write_ack_wait(
                    events@,
                    i + 1 as int,
                    pid,
                    cid,
                ));
                i += 1;
            },
            Step::Done(_) => {
                return (Ok(()), i + 1);
            },
            Step::Fail(e) => {
                return (Err(e), i + 1);
            },
        }
    }
    (Ok(()), i)
}

/// Consume events until one decides the read path's subscription request.
fn await_read_sub(events: &Vec<BleEvent>, pos: usize, pid: PeripheralId, cid: u128) -> (r: (
    Result<(), Error>,
    usize,
))
    requires
        pos <= events@.len(),
    ensures
        (r.0, r.1 as int) == read_sub_wait(events@, pos as int, pid, cid),
        pos <= r.1 <= events@.len(),
{
    let mut i: usize = pos;
    while i < events.len()
        invariant
            pos <= i <= events@.len(),
            read_sub_wait(events@, pos as int, pid, cid) == read_sub_wait(
                events@,
                i as int,
                pid,
                cid,
            ),
        decreases events@.len() - i,
    {
        match read_sub_outcome(&events[i], pid, cid) {
            Step::Skip => {
                assert(read_sub_wait(events@, i as int, pid, cid) == read_sub_wait(
                    events@,
                    i + 1 as int,
                    pid,
                    cid,
                ));
                i += 1;
            },
            Step::Done(_) => {
                return (Ok(()), i + 1);
            },
            Step::Fail(e) => {
                return (Err(e), i + 1);
            },
        }
    }
    (Ok(()), i)
}

/// Consume events until a notification frame arrives.
fn await_value(events: &Vec<BleEvent>, pos: usize, pid: PeripheralId, cid: u128) -> (r: (
    Result<Vec<u8>, Error>,
    usize,
))
    requires
        pos <= events@.len(),
    ensures
        ({
            let (v, p) = value_wait(events@, pos as int, pid, cid);
            &&& r.1 == p
            &&& match r.0 {
                Ok(frame) => v == Ok::<Seq<u8>, Error>(frame@),
                Err(e) => v == Err::<Seq<u8>, Error>(e),
            }
        }),
        pos <= r.1 <= events@.len(),
{
    let mut i: usize = pos;
    while i < events.len()
        invariant
            pos <= i <= events@.len(),
            value_wait(events@, pos as int, pid, cid) == value_wait(events@, i as int, pid, cid),
        decreases events@.len() - i,
    {
        match value_outcome(&events[i], pid, cid) {
            Step::Skip => {
                assert(value_wait(events@, i as int, pid, cid) == value_wait(
                    events@,
                    i + 1 as int,
                    pid,
                    cid,
                ));
                i += 1;
            },
            Step::Done(frame) => {
                return (Ok(frame), i + 1);
            },
            Step::Fail(e) => {
                return (Err(e), i + 1);
            },
        }
    }
    (Err(Error::Closed), i)
}

impl BleDevice {
    /// Write one command as MTU-sized chunks, confirming each chunk before
    /// the next, and report how far the event stream was consumed.
    pub fn write_command(
        &self,
        cmd: u8,
        payload: &Vec<u8>,
        events: &Vec<BleEvent>,
        pos: usize,
    ) -> (r: (Result<(), Error>, usize))
        requires
            self.wf(),
            pos <= events@.len(),
            payload@.len() <= 0xFFFF,
        ensures
            (r.0, r.1 as int) == write_acks_wait(
                events@,
                pos as int,
                self.peripheral,
                self.write_characteristic,
                chunk_count(payload@.len() as int + 2, self.mtu - 3),
            ),
            pos <= r.1 <= events@.len(),
    {
        let frames = chunk_payload(cmd, payload, self.mtu);
        proof {
            crate::framing::lemma_frame_count(cmd, message_body(payload@), self.mtu - 3);
        }
        let ghost n_spec = chunk_count(payload@.len() as int + 2, self.mtu - 3);
        let n = frames.len();
        assert(n == n_spec);
        let mut i: usize = 0;
        let mut cur: usize = pos;
        while i < n
            invariant
                i <= n,
                pos <= cur <= events@.len(),
                n as int == chunk_count(payload@.len() as int + 2, self.mtu - 3),
                write_acks_wait(
                    events@,
                    pos as int,
                    self.peripheral,
                    self.write_characteristic,
                    n as int,
                ) == write_acks_wait(
                    events@,
                    cur as int,
                    self.peripheral,
                    self.write_characteristic,
                    (n - i) as int,
                ),
            decreases n - i,
        {
            let (ack, next) = await_write_ack(events, cur, self.peripheral, self.write_characteristic);
            match ack {
                Ok(_) => {
                    cur = next;
                    i += 1;
                },
                Err(e) => {
                    return (Err(e), next);
                },
            }
        }
        (Ok(()), cur)
    }

    /// Read one reassembled response: enable notifications, validate the
    /// first frame, accumulate continuation frames to the declared length.
    pub fn read_data(&self, events: &Vec<BleEvent>, pos: usize) -> (r: (
        Result<Vec<u8>, Error>,
        usize,
    ))
        requires
            pos <= events@.len(),
        ensures
            ({
                let (res, p) = read_data_wait(
                    events@,
                    pos as int,
                    self.peripheral,
                    self.notify_characteristic,
                );
                &&& r.1 == p
                &&& match r.0 {
                    Ok(v) => res == Ok::<Seq<u8>, Error>(v@),
                    Err(e) => res == Err::<Seq<u8>, Error>(e),
                }
            }),
            pos <= r.1 <= events@.len(),
    {
        let pid = self.peripheral;
        let cid = self.notify_characteristic;
        let (sub, p1) = await_read_sub(events, pos, pid, cid);
        if let Err(e) = sub {
            return (Err(e), p1);
        }
        let (first, p2) = await_value(events, p1, pid, cid);
        let frame = match first {
            Ok(f) => f,
            Err(e) => {
                return (Err(e), p2);
            },
        };
        let (need, acc0) = match parse_first_frame(&frame) {
            Ok(t) => t,
            Err(e) => {
                return (Err(e), p2);
            },
        };
        let mut acc = acc0;
        let mut cur = p2;
        assert(read_data_wait(events@, pos as int, pid, cid) == reassemble(
            events@,
            cur as int,
            pid,
            cid,
            acc@,
            need as int,
        ));
        while acc.len() < need as usize
            invariant
                pos <= cur <= events@.len(),
                pid == self.peripheral,
                cid == self.notify_characteristic,
                read_data_wait(events@, pos as int, pid, cid) == reassemble(
                    events@,
                    cur as int,
                    pid,
                    cid,
                    acc@,
                    need as int,
                ),
            decreases events@.len() - cur,
        {
            proof {
                lemma_reassemble_step(events@, cur as int, pid, cid, acc@, need as int);
                lemma_value_wait_advances(events@, cur as int, pid, cid);
            }
            let (v, p3) = await_value(events, cur, pid, cid);
            match v {
                Ok(f) => {
                    let mut more = parse_continuation_frame(&f);
                    acc.append(&mut more);
                    cur = p3;
                },
                Err(e) => {
                    return (Err(e), p3);
                },
            }
        }
        (Ok(acc), cur)
    }

    /// Send one command frame and return the fully reassembled response:
    /// chunked confirmed writes under the response tag, then the read,
    /// bounded by the caller's deadline on the read side.
    pub fn exchange(&self, command: &Vec<u8>, events: &Vec<BleEvent>) -> (r: Result<Vec<u8>, Error>)
        requires
            self.wf(),
            command@.len() <= 0xFFFF,
        ensures
            match r {
                Ok(v) => exchange_result(self@, command@, events@) == Ok::<Seq<u8>, Error>(v@),
                Err(e) => exchange_result(self@, command@, events@) == Err::<Seq<u8>, Error>(e),
            },
    {
        let (w, p1) = self.write_command(RESPONSE_TAG, command, events, 0);
        if let Err(e) = w {
            return Err(e);
        }
        let (res, _p2) = self.read_data(events, p1);
        res
    }

    /// Whether the session still holds its connection. The platform layer
    /// offers no direct query; a session is taken as connected until a
    /// disconnect is observed.
    pub fn is_connected(&self) -> (r: Result<bool, Error>)
        ensures
            r == Ok::<bool, Error>(true),
    {
        Ok(true)
    }
}

impl crate::Exchange for BleDevice {
    type Event = BleEvent;

    open spec fn wf_handle(&self) -> bool {
        self.wf()
    }

    /// Exchange one command for its reassembled response.
    fn exchange(&mut self, command: &Vec<u8>, events: &Vec<BleEvent>) -> Result<Vec<u8>, Error> {
        BleDevice::exchange(self, command, events)
    }
}

} // verus!
