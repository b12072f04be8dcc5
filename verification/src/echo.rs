//! The echo service: one inbound connection at a time on a fixed port,
//! every read chunk written straight back to the peer.
//!
//! The service is a state machine. The task that owns the socket performs
//! one blocking operation at a time — listen, accept, read, write — and
//! hands its outcome back as an event; `EchoService::step` decides the next
//! state and the next operation. Chunk boundaries are preserved: each read
//! of `n` bytes is answered by one write of exactly those `n` bytes before
//! the next read is issued.

use vstd::prelude::*;

verus! {

/// Port the service listens on.
pub const ECHO_PORT: u16 = 1234;

/// Idle timeout applied to each accepted connection, in seconds. A
/// connection with no traffic for this long is closed by the transport,
/// which surfaces as a failed read or write.
pub const IDLE_TIMEOUT_SECS: u64 = 10;

/// Capacity of the fixed receive buffer; no read returns more bytes.
pub const RX_BUFFER_CAPACITY: usize = 4096;

/// Which operation is outstanding within a served connection.
#[derive(Clone, Copy, Debug, PartialEq, Eq, Structural)]
pub enum ServingPhase {
    /// Waiting for the next read to return.
    AwaitRead,
    /// Waiting for the echoed bytes to be written back.
    AwaitWrite,
}

/// The service's state between suspension points.
#[derive(Clone, Copy, Debug, PartialEq, Eq, Structural)]
pub enum ServiceState {
    /// No socket bound.
    Idle,
    /// Bound and listening, blocked on accept.
    AwaitingConnection,
    /// Exactly one connection open.
    Serving(ServingPhase),
}

/// What the service observed at its last suspension point.
pub enum ServiceEvent {
    /// The socket is bound and listening, idle timeout applied.
    Bound,
    /// Accept returned a connection.
    AcceptOk,
    /// Accept failed.
    AcceptErr,
    /// A read returned these bytes — at least one, at most the buffer.
    ReadData(Vec<u8>),
    /// A read returned zero bytes: the peer closed its write side.
    ReadEof,
    /// A read failed: a transport error, or the idle timeout closed the
    /// connection.
    ReadErr,
    /// The echoed bytes were written back in full.
    WriteOk,
    /// The write failed, or the idle timeout closed the connection.
    WriteErr,
}

/// What the service must do next.
pub enum ServiceAction {
    /// Bind and listen on the fixed port, applying the idle timeout.
    Listen,
    /// Block on accept.
    Accept,
    /// Read the next chunk into the receive buffer.
    Read,
    /// Write exactly these bytes back to the peer, in this order, as one
    /// chunk.
    Write(Vec<u8>),
}

/// Which events the transport can hand the service in each state. A read
/// that returns bytes returns between one and the buffer's worth; a
/// zero-length read is `ReadEof`.
pub open spec fn event_admissible(s: ServiceState, e: ServiceEvent) -> bool {
    match s {
        ServiceState::Idle => e is Bound,
        ServiceState::AwaitingConnection => e is AcceptOk || e is AcceptErr,
        ServiceState::Serving(phase) => match phase {
            ServingPhase::AwaitRead => match e {
                ServiceEvent::ReadData(chunk) => 1 <= chunk@.len() <= RX_BUFFER_CAPACITY,
                ServiceEvent::ReadEof => true,
                ServiceEvent::ReadErr => true,
                _ => false,
            },
            ServingPhase::AwaitWrite => e is WriteOk || e is WriteErr,
        },
    }
}

/// The state after an admissible event.
pub open spec fn next_state(s: ServiceState, e: ServiceEvent) -> ServiceState {
    match e {
        ServiceEvent::Bound => ServiceState::AwaitingConnection,
        ServiceEvent::AcceptOk => ServiceState::Serving(ServingPhase::AwaitRead),
        ServiceEvent::AcceptErr => ServiceState::Idle,
        ServiceEvent::ReadData(chunk) => ServiceState::Serving(ServingPhase::AwaitWrite),
        ServiceEvent::ReadEof => ServiceState::Idle,
        ServiceEvent::ReadErr => ServiceState::Idle,
        ServiceEvent::WriteOk => ServiceState::Serving(ServingPhase::AwaitRead),
        ServiceEvent::WriteErr => ServiceState::Idle,
    }
}

/// The operation issued after an admissible event. Data read from the peer
/// is the one case that carries a payload: it comes back out, untouched, as
/// the bytes to write.
pub open spec fn spec_action(e: ServiceEvent) -> ServiceAction {
    match e {
        ServiceEvent::Bound => ServiceAction::Accept,
        ServiceEvent::AcceptOk => ServiceAction::Read,
        ServiceEvent::AcceptErr => ServiceAction::Listen,
        ServiceEvent::ReadData(chunk) => ServiceAction::Write(chunk),
        ServiceEvent::ReadEof => ServiceAction::Listen,
        ServiceEvent::ReadErr => ServiceAction::Listen,
        ServiceEvent::WriteOk => ServiceAction::Read,
        ServiceEvent::WriteErr => ServiceAction::Listen,
    }
}

/// The echo service; between suspension points it is nothing but its state.
pub struct EchoService {
    pub state: ServiceState,
}

impl EchoService {
    /// A fresh service: nothing bound yet, so the first action is to
    /// listen.
    pub fn new() -> (s: EchoService)
        ensures
            s.state == ServiceState::Idle,
    {
        EchoService { state: ServiceState::Idle }
    }

    /// Takes the outcome of the last blocking operation and returns the
    /// next one to perform.
    pub fn step(&mut self, event: ServiceEvent) -> (action: ServiceAction)
        requires
            event_admissible(old(self).state, event),
        ensures
            final(self).state == next_state(old(self).state, event),
            action == spec_action(event),
    {
        match event {
            ServiceEvent::Bound => {
                self.state = ServiceState::AwaitingConnection;
                ServiceAction::Accept
            },
            ServiceEvent::AcceptOk => {
                self.state = ServiceState::Serving(ServingPhase::AwaitRead);
                ServiceAction::Read
            },
            ServiceEvent::AcceptErr => {
                self.state = ServiceState::Idle;
                ServiceAction::Listen
            },
            ServiceEvent::ReadData(chunk) => {
                self.state = ServiceState::Serving(ServingPhase::AwaitWrite);
                ServiceAction::Write(chunk)
            },
            ServiceEvent::ReadEof => {
                self.state = ServiceState::Idle;
                ServiceAction::Listen
            },
            ServiceEvent::ReadErr => {
                self.state = ServiceState::Idle;
                ServiceAction::Listen
            },
            ServiceEvent::WriteOk => {
                self.state = ServiceState::Serving(ServingPhase::AwaitRead);
                ServiceAction::Read
            },
            ServiceEvent::WriteErr => {
                self.state = ServiceState::Idle;
                ServiceAction::Listen
            },
        }
    }
}

/// Echo fidelity: a read of between one byte and the buffer's capacity is
/// answered by a write of exactly those bytes — same contents, same order,
/// same chunk boundary — and the session stays open, waiting on that write.
pub proof fn lemma_echo_fidelity(chunk: Vec<u8>)
    requires
        1 <= chunk@.len() <= RX_BUFFER_CAPACITY,
    ensures
        event_admissible(
            ServiceState::Serving(ServingPhase::AwaitRead),
            ServiceEvent::ReadData(chunk),
        ),
        spec_action(ServiceEvent::ReadData(chunk)) == ServiceAction::Write(chunk),
        next_state(ServiceState::Serving(ServingPhase::AwaitRead), ServiceEvent::ReadData(chunk))
            == ServiceState::Serving(ServingPhase::AwaitWrite),
{
}

/// A zero-length read ends the session unconditionally: the service drops
/// to Idle, re-listens, and one admissible step later is accepting again —
/// no restart involved.
pub proof fn lemma_eof_ends_session()
    ensures
        next_state(ServiceState::Serving(ServingPhase::AwaitRead), ServiceEvent::ReadEof)
            == ServiceState::Idle,
        spec_action(ServiceEvent::ReadEof) == ServiceAction::Listen,
        next_state(ServiceState::Idle, ServiceEvent::Bound) == ServiceState::AwaitingConnection,
        spec_action(ServiceEvent::Bound) == ServiceAction::Accept,
{
}

/// Single-session invariant: an accept is only ever issued from Idle, on
/// the listen completing — never while a session is being served — and
/// Serving is only entered from AwaitingConnection by a successful accept,
/// or kept from within the same session.
pub proof fn lemma_single_session(s: ServiceState, e: ServiceEvent)
    requires
        event_admissible(s, e),
    ensures
        spec_action(e) is Accept ==> s is Idle,
        s is Serving ==> !(spec_action(e) is Accept),
        next_state(s, e) is Serving && !(s is Serving) ==> s is AwaitingConnection && e is AcceptOk,
{
}

/// Idle timeout: when the transport closes an idle connection, the next
/// read or write surfaces it as a failure, and every such failure — like an
/// EOF — tears the session down; the service re-listens and returns to
/// awaiting a connection.
pub proof fn lemma_idle_timeout_returns_to_accepting(s: ServiceState, e: ServiceEvent)
    requires
        s is Serving,
        event_admissible(s, e),
        e is ReadErr || e is WriteErr || e is ReadEof,
    ensures
        next_state(s, e) == ServiceState::Idle,
        spec_action(e) == ServiceAction::Listen,
        next_state(ServiceState::Idle, ServiceEvent::Bound) == ServiceState::AwaitingConnection,
{
}

} // verus!
