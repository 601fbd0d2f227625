//! The per-connection state machine: read a packet, dispatch it, and decide
//! whether the connection lives on.
//!
//! The connection waits on the peer, on the persistence collaborator and on
//! the shared cancellation signal, so its decisions are a state machine: each
//! [`ConnectionEvent`] that the driver observes is handed to
//! [`Connection::step`], which answers with the [`ConnectionAction`] to
//! perform next. Cancellation closes the connection from every state without
//! any further I/O.
use vstd::prelude::*;
use crate::frame::PacketReadError;
use crate::packets::{
    ApplicationPacket, Message, MessageKind, PacketHeader, RegisterDevicePacket,
};
use crate::registration::{
    PersistenceEvent, Registration, RegistrationAction, random_id,
};

verus! {

/// Whether an error from a packet handler closes the connection.
#[derive(Debug, Clone, Copy, PartialEq, Eq)]
pub enum PacketHandlerError {
    /// Close the connection.
    Ending,
    /// Log and keep reading.
    NonEnding,
}

/// What the driver of a connection observed.
#[derive(Debug, PartialEq, Eq)]
pub enum ConnectionEvent {
    /// The shared cancellation signal fired.
    Cancelled,
    /// The frame reader finished reading a packet, or failed to.
    PacketRead(Result<ApplicationPacket, PacketReadError>),
    /// The persistence collaborator answered the last request.
    Persistence(PersistenceEvent),
    /// The reply was written to the peer.
    Sent,
    /// Writing the reply failed.
    SendFailed,
}

/// What the driver of a connection does next.
#[derive(Debug, PartialEq, Eq)]
pub enum ConnectionAction {
    /// Read the next packet (racing the cancellation signal).
    ReadPacket,
    /// Ask the persistence collaborator: a lookup or an insert.
    Persist(RegistrationAction),
    /// Write this packet to the peer.
    Reply(ApplicationPacket),
    /// Close the connection; no further I/O.
    Close,
}

/// Where a connection stands.
#[derive(Debug, Clone, Copy, PartialEq, Eq)]
pub enum ConnectionState {
    /// Waiting for the next packet.
    Reading,
    /// A registration handshake runs for the packet with this header.
    Registering(Registration, PacketHeader),
    /// A reply is being written.
    Replying,
    /// Terminal.
    Closed,
}

/// One accepted connection.
#[derive(Debug, Clone, Copy, PartialEq, Eq)]
pub struct Connection {
    pub state: ConnectionState,
}

/// The reply that tells a camera the device id assigned to it: the request
/// echoed as a response, with the new id in place of the camera id.
pub open spec fn registration_reply(
    header: PacketHeader,
    request: RegisterDevicePacket,
    device_id: [u8; 16],
) -> ApplicationPacket {
    ApplicationPacket {
        header: PacketHeader {
            session_id: header.session_id,
            buffer_size: MessageKind::RegisterDevice.spec_body_len(),
            is_response: true,
        },
        message: Message::RegisterDevice(
            RegisterDevicePacket {
                user_id: request.user_id,
                camera_id: device_id,
                auth_key: request.auth_key,
                mac_address: request.mac_address,
            },
        ),
    }
}

/// Builds the reply that tells a camera its new device id.
pub fn make_registration_reply(
    header: &PacketHeader,
    request: &RegisterDevicePacket,
    device_id: [u8; 16],
) -> (r: ApplicationPacket)
    ensures
        r == registration_reply(*header, *request, device_id),
        r.wf(),
{
    ApplicationPacket {
        header: PacketHeader {
            session_id: header.session_id,
            buffer_size: MessageKind::RegisterDevice.body_len(),
            is_response: true,
        },
        message: Message::RegisterDevice(
            RegisterDevicePacket {
                user_id: request.user_id,
                camera_id: device_id,
                auth_key: request.auth_key,
                mac_address: request.mac_address,
            },
        ),
    }
}

impl Connection {
    pub open spec fn closed() -> (Connection, ConnectionAction) {
        (Connection { state: ConnectionState::Closed }, ConnectionAction::Close)
    }

    pub open spec fn reading() -> (Connection, ConnectionAction) {
        (Connection { state: ConnectionState::Reading }, ConnectionAction::ReadPacket)
    }

    /// Where a decoded packet leads: a registration packet starts the
    /// handshake; the other messages are acknowledged by reading on.
    pub open spec fn spec_dispatch(p: ApplicationPacket) -> (Connection, ConnectionAction) {
        match p.message {
            Message::RegisterDevice(request) => {
                let (reg, action) = Registration::spec_start(request);
                (
                    Connection { state: ConnectionState::Registering(reg, p.header) },
                    ConnectionAction::Persist(action),
                )
            },
            _ => Self::reading(),
        }
    }

    /// Where the handshake's next action leads.
    pub open spec fn spec_after_registration(
        reg: Registration,
        header: PacketHeader,
        action: RegistrationAction,
    ) -> (Connection, ConnectionAction) {
        match action {
            RegistrationAction::Finish(Ok(Some(id))) => (
                Connection { state: ConnectionState::Replying },
                ConnectionAction::Reply(registration_reply(header, reg.request, id)),
            ),
            RegistrationAction::Finish(Ok(None)) => Self::reading(),
            RegistrationAction::Finish(Err(e)) => match e.spec_class() {
                PacketHandlerError::Ending => Self::closed(),
                PacketHandlerError::NonEnding => Self::reading(),
            },
            _ => (
                Connection { state: ConnectionState::Registering(reg, header) },
                ConnectionAction::Persist(action),
            ),
        }
    }

    /// The connection after `event`, and what to do next; `fresh` is the
    /// device id to use if the registration handshake draws one.
    pub open spec fn spec_advance(self, event: ConnectionEvent, fresh: [u8; 16]) -> (
        Connection,
        ConnectionAction,
    ) {
        match event {
            ConnectionEvent::Cancelled => Self::closed(),
            _ => match self.state {
                ConnectionState::Closed => Self::closed(),
                ConnectionState::Reading => match event {
                    ConnectionEvent::PacketRead(Ok(p)) => Self::spec_dispatch(p),
                    ConnectionEvent::PacketRead(Err(e)) => if e.spec_is_fatal() {
                        Self::closed()
                    } else {
                        Self::reading()
                    },
                    _ => Self::closed(),
                },
                ConnectionState::Registering(reg, header) => match event {
                    ConnectionEvent::Persistence(pe) => {
                        let (next, action) = reg.spec_advance(pe, fresh);
                        Self::spec_after_registration(next, header, action)
                    },
                    _ => Self::closed(),
                },
                ConnectionState::Replying => match event {
                    ConnectionEvent::Sent => Self::reading(),
                    _ => Self::closed(),
                },
            },
        }
    }

    /// A new connection, and its first action: read a packet.
    pub fn new() -> (r: (Connection, ConnectionAction))
        ensures
            r == Self::reading(),
    {
        (Connection { state: ConnectionState::Reading }, ConnectionAction::ReadPacket)
    }

    fn close(&mut self) -> (r: ConnectionAction)
        ensures
            (*final(self), r) == Self::closed(),
    {
        self.state = ConnectionState::Closed;
        ConnectionAction::Close
    }

    fn read_on(&mut self) -> (r: ConnectionAction)
        ensures
            (*final(self), r) == Self::reading(),
    {
        self.state = ConnectionState::Reading;
        ConnectionAction::ReadPacket
    }

    /// Hands the event `event` to the connection; `fresh` is the device id
    /// to use if the registration handshake draws one.
    pub fn advance(&mut self, event: ConnectionEvent, fresh: [u8; 16]) -> (r: ConnectionAction)
        ensures
            (*final(self), r) == old(self).spec_advance(event, fresh),
    {
        if let ConnectionEvent::Cancelled = event {
            return self.close();
        }
        match self.state {
            ConnectionState::Closed => self.close(),
            ConnectionState::Reading => match event {
                ConnectionEvent::PacketRead(Ok(p)) => match p.message {
                    Message::RegisterDevice(request) => {
                        let (reg, action) = Registration::start(request);
                        self.state = ConnectionState::Registering(reg, p.header);
                        ConnectionAction::Persist(action)
                    },
                    _ => self.read_on(),
                },
                ConnectionEvent::PacketRead(Err(e)) => if e.is_fatal() {
                    self.close()
                } else {
                    self.read_on()
                },
                _ => self.close(),
            },
            ConnectionState::Registering(reg, header) => match event {
                ConnectionEvent::Persistence(pe) => {
                    let mut next = reg;
                    let action = next.advance(pe, fresh);
                    match action {
                        RegistrationAction::Finish(Ok(Some(id))) => {
                            self.state = ConnectionState::Replying;
                            ConnectionAction::Reply(
                                make_registration_reply(&header, &next.request, id),
                            )
                        },
                        RegistrationAction::Finish(Ok(None)) => self.read_on(),
                        RegistrationAction::Finish(Err(e)) => match e.class() {
                            PacketHandlerError::Ending => self.close(),
                            PacketHandlerError::NonEnding => self.read_on(),
                        },
                        other => {
                            self.state = ConnectionState::Registering(next, header);
                            ConnectionAction::Persist(other)
                        },
                    }
                },
                _ => self.close(),
            },
            ConnectionState::Replying => match event {
                ConnectionEvent::Sent => self.read_on(),
                _ => self.close(),
            },
        }
    }

    /// Hands the event `event` to the connection, drawing a random device id
    /// for the case that the registration handshake needs one.
    pub fn step(&mut self, event: ConnectionEvent) -> (r: ConnectionAction)
        ensures
            exists|fresh: [u8; 16]| (*final(self), r) == old(self).spec_advance(event, fresh),
    {
        let fresh = random_id();
        let r = self.advance(event, fresh);
        assert((*self, r) == old(self).spec_advance(event, fresh));
        r
    }
}

/// Cancellation closes a connection from every state, with no further I/O,
/// and a closed connection stays closed whatever happens next.
pub proof fn lemma_cancel_closes(
    c: Connection,
    fresh: [u8; 16],
    later: ConnectionEvent,
    later_fresh: [u8; 16],
)
    ensures
        c.spec_advance(ConnectionEvent::Cancelled, fresh) == Connection::closed(),
        c.spec_advance(ConnectionEvent::Cancelled, fresh).0.spec_advance(later, later_fresh)
            == Connection::closed(),
{
}

} // verus!
