use device_bridge::bridge::{accept_step, AcceptAction, AcceptEvent, DeviceBridgeFairing};
use device_bridge::connection::{Connection, ConnectionAction, ConnectionEvent, ConnectionState, PacketHandlerError};
use device_bridge::frame::PacketReadError;
use device_bridge::model::Device;
use device_bridge::packets::{
    ApplicationPacket, EmptyPacket, Message, PacketHeader, ParseError, RegisterDevicePacket,
};
use device_bridge::registration::{
    id_is_zero, DeviceRegisterError, PersistenceEvent, Registration, RegistrationAction,
    RegistrationStage, MAX_ID_ATTEMPTS,
};

fn request(camera_id: [u8; 16]) -> RegisterDevicePacket {
    RegisterDevicePacket {
        user_id: [1; 16],
        camera_id,
        auth_key: [2; 16],
        mac_address: [3, 4, 5, 6, 7, 8],
    }
}

fn device_with(id: [u8; 16]) -> Device {
    Device {
        device_id: id,
        mac_address: [3, 4, 5, 6, 7, 8],
        auth_key: [2; 16],
        registration_first_stage: true,
        user_id: [1; 16],
    }
}

#[test]
fn zero_id_detection() {
    assert!(id_is_zero(&[0; 16]));
    let mut id = [0u8; 16];
    id[15] = 1;
    assert!(!id_is_zero(&id));
}

#[test]
fn unknown_user_is_rejected_without_insert() {
    let (mut reg, action) = Registration::start(request([0; 16]));
    assert_eq!(action, RegistrationAction::FindUser([1; 16]));
    let action = reg.advance(PersistenceEvent::NotFound, [9; 16]);
    assert_eq!(action, RegistrationAction::Finish(Err(DeviceRegisterError::UserDoesNotExist)));
    assert_eq!(reg.stage, RegistrationStage::Finished);
    let later = reg.advance(PersistenceEvent::Inserted, [9; 16]);
    assert!(!matches!(later, RegistrationAction::InsertDevice(_)));
}

#[test]
fn duplicate_device_id_is_regenerated() {
    let (mut reg, _) = Registration::start(request([0; 16]));
    let action = reg.advance(PersistenceEvent::Found, [10; 16]);
    assert_eq!(action, RegistrationAction::InsertDevice(device_with([10; 16])));
    let action = reg.advance(PersistenceEvent::UniqueViolation, [11; 16]);
    assert_eq!(action, RegistrationAction::InsertDevice(device_with([11; 16])));
    assert_eq!(reg.attempts, 2);
    let action = reg.advance(PersistenceEvent::Inserted, [12; 16]);
    assert_eq!(action, RegistrationAction::Finish(Ok(Some([11; 16]))));
}

#[test]
fn id_attempts_are_capped() {
    let (mut reg, _) = Registration::start(request([0; 16]));
    let mut action = reg.advance(PersistenceEvent::Found, [0; 16]);
    let mut drawn = 1;
    while let RegistrationAction::InsertDevice(_) = action {
        action = reg.advance(PersistenceEvent::UniqueViolation, [drawn as u8; 16]);
        drawn += 1;
    }
    assert_eq!(drawn, MAX_ID_ATTEMPTS + 1);
    assert_eq!(action, RegistrationAction::Finish(Err(DeviceRegisterError::IdSpaceExhausted)));
}

#[test]
fn random_ids_are_drawn_for_inserts() {
    let (mut reg, _) = Registration::start(request([0; 16]));
    let first = match reg.step(PersistenceEvent::Found) {
        RegistrationAction::InsertDevice(d) => d,
        other => panic!("unexpected {:?}", other),
    };
    let second = match reg.step(PersistenceEvent::UniqueViolation) {
        RegistrationAction::InsertDevice(d) => d,
        other => panic!("unexpected {:?}", other),
    };
    assert_ne!(first.device_id, second.device_id);
    assert_eq!(second.auth_key, [2; 16]);
    assert!(second.registration_first_stage);
}

#[test]
fn existing_device_is_rejected() {
    let (mut reg, action) = Registration::start(request([5; 16]));
    assert_eq!(action, RegistrationAction::FindDevice([5; 16]));
    let action = reg.advance(PersistenceEvent::Found, [9; 16]);
    assert_eq!(action, RegistrationAction::Finish(Err(DeviceRegisterError::OtherError)));
    assert_eq!(reg.stage, RegistrationStage::Finished);
}

#[test]
fn unknown_device_proceeds_and_failures_surface() {
    let (mut reg, _) = Registration::start(request([5; 16]));
    assert_eq!(reg.advance(PersistenceEvent::NotFound, [9; 16]), RegistrationAction::Finish(Ok(None)));
    let (mut reg, _) = Registration::start(request([0; 16]));
    assert_eq!(
        reg.advance(PersistenceEvent::Failed(String::from("disk full")), [9; 16]),
        RegistrationAction::Finish(Err(DeviceRegisterError::DatabaseError(String::from("disk full"))))
    );
    assert_eq!(DeviceRegisterError::UserDoesNotExist.class(), PacketHandlerError::Ending);
    assert_eq!(DeviceRegisterError::DatabaseError(String::new()).class(), PacketHandlerError::Ending);
}

fn register_packet(camera_id: [u8; 16]) -> ApplicationPacket {
    ApplicationPacket {
        header: PacketHeader { session_id: [7; 16], buffer_size: 54, is_response: false },
        message: Message::RegisterDevice(request(camera_id)),
    }
}

#[test]
fn connection_registers_and_replies() {
    let (mut conn, action) = Connection::new();
    assert_eq!(action, ConnectionAction::ReadPacket);
    let action = conn.advance(ConnectionEvent::PacketRead(Ok(register_packet([0; 16]))), [0; 16]);
    assert_eq!(action, ConnectionAction::Persist(RegistrationAction::FindUser([1; 16])));
    let action = conn.advance(ConnectionEvent::Persistence(PersistenceEvent::Found), [42; 16]);
    assert_eq!(action, ConnectionAction::Persist(RegistrationAction::InsertDevice(device_with([42; 16]))));
    let action = conn.advance(ConnectionEvent::Persistence(PersistenceEvent::Inserted), [0; 16]);
    let reply = match action {
        ConnectionAction::Reply(p) => p,
        other => panic!("unexpected {:?}", other),
    };
    assert!(reply.header.is_response);
    assert_eq!(reply.header.session_id, [7; 16]);
    assert_eq!(ApplicationPacket::from_bytes(&reply.to_bytes()), Ok(reply));
    match reply.message {
        Message::RegisterDevice(r) => assert_eq!(r.camera_id, [42; 16]),
        other => panic!("unexpected {:?}", other),
    }
    assert_eq!(conn.advance(ConnectionEvent::Sent, [0; 16]), ConnectionAction::ReadPacket);
}

#[test]
fn connection_closes_on_ending_errors() {
    let (mut conn, _) = Connection::new();
    conn.advance(ConnectionEvent::PacketRead(Ok(register_packet([0; 16]))), [0; 16]);
    let action = conn.advance(ConnectionEvent::Persistence(PersistenceEvent::NotFound), [0; 16]);
    assert_eq!(action, ConnectionAction::Close);
    assert_eq!(conn.state, ConnectionState::Closed);

    let (mut conn, _) = Connection::new();
    assert_eq!(conn.advance(ConnectionEvent::PacketRead(Err(PacketReadError::CantRead)), [0; 16]), ConnectionAction::Close);
    let (mut conn, _) = Connection::new();
    assert_eq!(
        conn.advance(ConnectionEvent::PacketRead(Err(PacketReadError::OversizedBody(500))), [0; 16]),
        ConnectionAction::Close
    );
}

#[test]
fn connection_reads_on_after_recoverable_events() {
    let (mut conn, _) = Connection::new();
    let noop = ApplicationPacket {
        header: PacketHeader { session_id: [0; 16], buffer_size: 0, is_response: false },
        message: Message::NoOperation(EmptyPacket {}),
    };
    assert_eq!(conn.advance(ConnectionEvent::PacketRead(Ok(noop)), [0; 16]), ConnectionAction::ReadPacket);
    let parse = PacketReadError::PacketParseError(ParseError::BodySizeMismatch { declared: 3, expected: 1 });
    assert_eq!(conn.advance(ConnectionEvent::PacketRead(Err(parse)), [0; 16]), ConnectionAction::ReadPacket);
    conn.advance(ConnectionEvent::PacketRead(Ok(register_packet([5; 16]))), [0; 16]);
    assert_eq!(
        conn.step(ConnectionEvent::Persistence(PersistenceEvent::NotFound)),
        ConnectionAction::ReadPacket
    );
}

#[test]
fn cancellation_stops_everything() {
    assert_eq!(accept_step(AcceptEvent::Cancelled), AcceptAction::Stop);
    assert_eq!(accept_step(AcceptEvent::Accepted), AcceptAction::SpawnHandler);
    let (mut conn, _) = Connection::new();
    conn.advance(ConnectionEvent::PacketRead(Ok(register_packet([0; 16]))), [0; 16]);
    assert_eq!(conn.advance(ConnectionEvent::Cancelled, [0; 16]), ConnectionAction::Close);
    assert_eq!(conn.state, ConnectionState::Closed);
    assert_eq!(conn.advance(ConnectionEvent::Sent, [0; 16]), ConnectionAction::Close);
    assert_eq!(DeviceBridgeFairing::new(3333).port, 3333);
}
