//! The bridge supervisor's decisions: the accept loop hands each accepted
//! connection to a handler of its own until the shared cancellation signal
//! fires.
use vstd::prelude::*;
use crate::connection::{Connection, ConnectionEvent};

verus! {

/// Where the bridge listens; it is started when the web application ignites.
#[derive(Debug, Clone, Copy, PartialEq, Eq)]
pub struct DeviceBridgeFairing {
    pub port: u16,
}

impl DeviceBridgeFairing {
    pub fn new(port: u16) -> (r: DeviceBridgeFairing)
        ensures
            r.port == port,
    {
        DeviceBridgeFairing { port }
    }
}

/// What the accept loop observed.
#[derive(Debug, Clone, Copy, PartialEq, Eq)]
pub enum AcceptEvent {
    /// The shared cancellation signal fired.
    Cancelled,
    /// A connection was accepted.
    Accepted,
}

/// What the accept loop does next.
#[derive(Debug, Clone, Copy, PartialEq, Eq)]
pub enum AcceptAction {
    /// Leave the loop.
    Stop,
    /// Spawn a handler for the accepted connection and accept again.
    SpawnHandler,
}

pub open spec fn spec_accept_step(event: AcceptEvent) -> AcceptAction {
    match event {
        AcceptEvent::Cancelled => AcceptAction::Stop,
        AcceptEvent::Accepted => AcceptAction::SpawnHandler,
    }
}

/// The accept loop's decision on `event`.
pub fn accept_step(event: AcceptEvent) -> (r: AcceptAction)
    ensures
        r == spec_accept_step(event),
{
    match event {
        AcceptEvent::Cancelled => AcceptAction::Stop,
        AcceptEvent::Accepted => AcceptAction::SpawnHandler,
    }
}

/// Cancelling the shared signal stops the accept loop and closes every
/// connection handler, whatever state it is in, with no further I/O.
pub proof fn lemma_cancel_stops_bridge(handlers: Seq<Connection>, fresh: [u8; 16])
    ensures
        spec_accept_step(AcceptEvent::Cancelled) == AcceptAction::Stop,
        forall|i: int|
            0 <= i < handlers.len() ==> #[trigger] handlers[i].spec_advance(
                ConnectionEvent::Cancelled,
                fresh,
            ) == Connection::closed(),
{
}

} // verus!
