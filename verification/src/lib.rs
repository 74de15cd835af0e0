//! Device-communication library for Ledger-style hardware wallets.
//!
//! The library models device discovery, the BLE connect handshake, and the
//! length-framed chunking/reassembly protocol used to carry command/response
//! messages (APDUs) over a transport with a small fixed MTU. Platform event
//! delivery is represented by plain event values, so every decision the
//! protocol makes is a verified function from state and event to outcome.

use vstd::prelude::*;

pub mod ble;
pub mod framing;
pub mod info;
pub mod session;
pub mod text;
pub mod transport;
pub mod usb;

verus! {

/// Errors surfaced by discovery, connection and exchange operations.
#[derive(Clone, Copy, Debug, PartialEq, Eq, Structural)]
pub enum Error {
    /// Connect was requested for info not present in the most recent discovery result.
    NoDevices,
    /// Catch-all for handshake-stage failures.
    Unknown,
    /// The event channel closed while waiting for a response during reassembly.
    Closed,
    /// A notification frame was too short or carried an unexpected type tag.
    UnexpectedResponse,
    /// The declared response length was zero.
    EmptyResponse,
    /// The overall exchange exceeded its caller-supplied deadline.
    Timeout,
}

/// The capability every concrete transport provides: a bounded discovery
/// pass and a connect by previously listed identity. Events are the plain
/// values the platform layer delivered while the operation ran; their exact
/// meaning is fixed by each implementation's own contracts.
pub trait Transport {
    /// Discovery filter consumed by `list`.
    type Filters;

    /// Transport-specific connection info.
    type Info;

    /// Connected device handle produced by `connect`.
    type Device;

    /// Events the implementation consumes.
    type Event;

    /// Run one discovery pass; the set returned supersedes any previously
    /// remembered set.
    fn list(&mut self, filters: Self::Filters, events: &Vec<Self::Event>) -> Result<
        Vec<info::LedgerInfo>,
        Error,
    >;

    /// Connect to a device previously returned by the most recent `list`.
    fn connect(&mut self, info: Self::Info, events: &Vec<Self::Event>) -> Result<
        Self::Device,
        Error,
    >;
}

/// The capability every connected device handle provides: send one command
/// and return the fully reassembled response. The deadline appears among
/// the events; a single exchange is in flight per handle at a time.
pub trait Exchange {
    /// Events the implementation consumes.
    type Event;

    /// Whether this handle can carry an exchange.
    spec fn wf_handle(&self) -> bool;

    /// Send one command frame and await the reassembled response.
    fn exchange(&mut self, command: &Vec<u8>, events: &Vec<Self::Event>) -> Result<Vec<u8>, Error>
        requires
            old(self).wf_handle(),
            command@.len() <= 0xFFFF,
    ;
}

} // verus!
