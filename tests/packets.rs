use device_bridge::frame::{frame_body_len, read_packet, PacketReadError};
use device_bridge::packets::{
    ApplicationPacket, EmptyPacket, ImageChunk, ImageChunkType, InitiateConnectionPacket, Message,
    MessageKind, PacketHeader, ParseError, RegisterDevicePacket, UnregisterDevicePacket,
};
use std::mem::size_of;

#[test]
fn decode_noop_request() {
    let data: [u8; 21] = [
        0, 0, 0, 0, 0, 0, 0, 0, 0, 0, 0, 0, 0, 0, 0, 0,
        0, 0, 0, 0,
        0b0_0000000,
    ];

    let decoded = ApplicationPacket::from_bytes(data.as_ref()).unwrap();
    assert!(matches!(decoded.message, Message::NoOperation(_)));
    assert!(!decoded.header.is_response);
}

#[test]
fn decode_registration_response() {
    let data: [u8; 75] = [
        0, 1, 2, 3, 4, 5, 6, 7, 8, 9, 10, 11, 12, 13, 14, 15,
        54, 0, 0, 0,
        0b1_0000001,
        0, 1, 2, 3, 4, 5, 6, 7, 8, 9, 10, 11, 12, 13, 14, 15,
        15, 14, 13, 12, 11, 10, 9, 8, 7, 6, 5, 4, 3, 2, 1, 0,
        16, 17, 18, 19, 20, 21, 22, 23, 24, 25, 26, 27, 29, 30, 31, 32,
        0, 1, 2, 3, 4, 5,
    ];

    let decoded = ApplicationPacket::from_bytes(data.as_ref()).unwrap();
    assert!(decoded.header.is_response);
    assert_eq!(decoded.header.buffer_size, 54);
    assert_eq!(decoded.header.session_id, [0, 1, 2, 3, 4, 5, 6, 7, 8, 9, 10, 11, 12, 13, 14, 15]);
    assert!(matches!(decoded.message, Message::RegisterDevice(_)));
    if let Message::RegisterDevice(inner) = decoded.message {
        assert_eq!(inner.user_id, [0, 1, 2, 3, 4, 5, 6, 7, 8, 9, 10, 11, 12, 13, 14, 15]);
        assert_eq!(inner.camera_id, [15, 14, 13, 12, 11, 10, 9, 8, 7, 6, 5, 4, 3, 2, 1, 0]);
        assert_eq!(inner.auth_key, [16, 17, 18, 19, 20, 21, 22, 23, 24, 25, 26, 27, 29, 30, 31, 32]);
        assert_eq!(inner.mac_address, [0, 1, 2, 3, 4, 5]);
    }
}

#[test]
fn encode_initcomm_response() {
    let data = ApplicationPacket {
        header: PacketHeader {
            session_id: [0, 1, 2, 3, 4, 5, 6, 7, 8, 9, 10, 11, 12, 13, 14, 15],
            is_response: true,
            buffer_size: size_of::<InitiateConnectionPacket>() as u32,
        },
        message: Message::InitiateConnection(InitiateConnectionPacket {
            auth_key: [16, 17, 18, 19, 20, 21, 22, 23, 24, 25, 26, 27, 29, 30, 31, 32],
            camera_id: [15, 14, 13, 12, 11, 10, 9, 8, 7, 6, 5, 4, 3, 2, 1, 0],
        }),
    };

    let encoded = data.to_bytes();
    assert_eq!(encoded, vec![
        0, 1, 2, 3, 4, 5, 6, 7, 8, 9, 10, 11, 12, 13, 14, 15,
        32, 0, 0, 0,
        0b1_0000011, // 0x03 + response
        15, 14, 13, 12, 11, 10, 9, 8, 7, 6, 5, 4, 3, 2, 1, 0,
        16, 17, 18, 19, 20, 21, 22, 23, 24, 25, 26, 27, 29, 30, 31, 32
    ]);
}

#[test]
fn image_chunk() {
    let data = ImageChunk {
        chunk_id: 5,
        chunk_type: ImageChunkType::MiddleChunk,
        session_id: [0, 1, 2, 3, 4, 5, 6, 7, 8, 9, 10, 11, 12, 13, 14, 15],
        image_bytes: vec![0; 16384],
    };

    let encoded = data.to_bytes();
    assert_eq!(encoded.len(), 4 + 1 + 16 + 16384);

    let decoded = ImageChunk::from_bytes(encoded.as_ref()).unwrap();
    assert_eq!(decoded.chunk_id, 5);
    assert_eq!(decoded.chunk_type, ImageChunkType::MiddleChunk);
    assert_eq!(decoded.session_id, [0, 1, 2, 3, 4, 5, 6, 7, 8, 9, 10, 11, 12, 13, 14, 15]);
    assert_eq!(decoded.image_bytes.len(), 16384);
}

fn sample_packets() -> Vec<ApplicationPacket> {
    let session_id = [9, 8, 7, 6, 5, 4, 3, 2, 1, 0, 255, 254, 253, 252, 251, 250];
    vec![
        ApplicationPacket {
            header: PacketHeader { session_id, buffer_size: 0, is_response: false },
            message: Message::NoOperation(EmptyPacket {}),
        },
        ApplicationPacket {
            header: PacketHeader { session_id, buffer_size: 54, is_response: true },
            message: Message::RegisterDevice(RegisterDevicePacket {
                user_id: [1; 16],
                camera_id: [2; 16],
                auth_key: [3; 16],
                mac_address: [4, 5, 6, 7, 8, 9],
            }),
        },
        ApplicationPacket {
            header: PacketHeader { session_id, buffer_size: 1, is_response: false },
            message: Message::UnregisterDevice(UnregisterDevicePacket { success: 1 }),
        },
        ApplicationPacket {
            header: PacketHeader { session_id, buffer_size: 32, is_response: true },
            message: Message::InitiateConnection(InitiateConnectionPacket {
                camera_id: [200; 16],
                auth_key: [100; 16],
            }),
        },
    ]
}

#[test]
fn round_trip_every_message_type() {
    for p in sample_packets() {
        let bytes = p.to_bytes();
        assert_eq!(bytes.len(), 21 + p.header.buffer_size as usize);
        assert_eq!(ApplicationPacket::from_bytes(&bytes), Ok(p));
    }
}

#[test]
fn header_flags_bit_packing() {
    let mut data = [0u8; 21];
    data[20] = 0b1_0000011;
    let (header, kind) = PacketHeader::from_bytes(&data).unwrap();
    assert!(header.is_response);
    assert_eq!(kind, MessageKind::InitiateConnection);
    assert_eq!(kind.id(), 0x03);
}

#[test]
fn header_fields_little_endian() {
    let mut data = [0u8; 21];
    data[0] = 0xAA;
    data[15] = 0xBB;
    data[16] = 0x01;
    data[17] = 0x02;
    data[18] = 0x03;
    data[19] = 0x04;
    data[20] = 0b0_0000010;
    let (header, kind) = PacketHeader::from_bytes(&data).unwrap();
    assert_eq!(header.session_id[0], 0xAA);
    assert_eq!(header.session_id[15], 0xBB);
    assert_eq!(header.buffer_size, 0x04030201);
    assert!(!header.is_response);
    assert_eq!(kind, MessageKind::UnregisterDevice);
    assert_eq!(header.to_bytes(kind), data.to_vec());
}

#[test]
fn unknown_message_type_is_rejected() {
    let mut data = [0u8; 21];
    data[20] = 0b1_0000100;
    assert_eq!(PacketHeader::from_bytes(&data), Err(ParseError::UnknownMessageType(4)));
    assert_eq!(ApplicationPacket::from_bytes(&data), Err(ParseError::UnknownMessageType(4)));
    assert_eq!(
        read_packet(&data),
        Err(PacketReadError::HeaderParseError(ParseError::UnknownMessageType(4)))
    );
    assert_eq!(ParseError::UnknownMessageType(4).message(), "unknown message type");
}

#[test]
fn body_size_mismatch_is_rejected() {
    let mut data = vec![0u8; 21 + 5];
    data[16] = 5;
    data[20] = 0x02;
    assert_eq!(
        ApplicationPacket::from_bytes(&data),
        Err(ParseError::BodySizeMismatch { declared: 5, expected: 1 })
    );
    assert_eq!(
        read_packet(&data),
        Err(PacketReadError::PacketParseError(ParseError::BodySizeMismatch { declared: 5, expected: 1 }))
    );
}

#[test]
fn short_and_long_buffers_are_rejected() {
    assert_eq!(ApplicationPacket::from_bytes(&[0u8; 20]), Err(ParseError::NotEnoughData));
    let mut short_body = vec![0u8; 21 + 31];
    short_body[16] = 32;
    short_body[20] = 0x03;
    assert_eq!(ApplicationPacket::from_bytes(&short_body), Err(ParseError::NotEnoughData));
    let mut long_body = vec![0u8; 21 + 2];
    long_body[16] = 1;
    long_body[20] = 0x02;
    assert_eq!(ApplicationPacket::from_bytes(&long_body), Err(ParseError::TooMuchData));
}

#[test]
fn truncated_stream_cant_read() {
    assert_eq!(read_packet(&[]), Err(PacketReadError::CantRead));
    assert_eq!(read_packet(&[0u8; 20]), Err(PacketReadError::CantRead));
    assert_eq!(frame_body_len(&[0u8; 7]), Err(PacketReadError::CantRead));
    let p = sample_packets()[1];
    let bytes = p.to_bytes();
    assert_eq!(read_packet(&bytes[..bytes.len() - 1]), Err(PacketReadError::CantRead));
}

#[test]
fn oversized_buffer_size_is_rejected() {
    let mut data = [0u8; 21];
    data[16] = 100;
    assert_eq!(frame_body_len(&data), Err(PacketReadError::OversizedBody(100)));
    data[16] = 0xFF;
    data[17] = 0xFF;
    data[18] = 0xFF;
    data[19] = 0xFF;
    assert_eq!(read_packet(&data), Err(PacketReadError::OversizedBody(u32::MAX)));
    assert!(PacketReadError::OversizedBody(100).is_fatal());
    data[16] = 99;
    data[17] = 0;
    data[18] = 0;
    data[19] = 0;
    assert_eq!(frame_body_len(&data), Ok(99));
}

#[test]
fn stream_reads_first_packet_only() {
    let packets = sample_packets();
    let mut stream = packets[3].to_bytes();
    stream.extend(packets[0].to_bytes());
    let (first, used) = read_packet(&stream).unwrap();
    assert_eq!(first, packets[3]);
    assert_eq!(used, 53);
    let (second, used2) = read_packet(&stream[used..]).unwrap();
    assert_eq!(second, packets[0]);
    assert_eq!(used2, 21);
    assert!(!PacketReadError::PacketParseError(ParseError::TooMuchData).is_fatal());
}

#[test]
fn image_chunk_errors_and_encoding() {
    assert_eq!(ImageChunk::from_bytes(&[0u8; 20]), Err(ParseError::NotEnoughData));
    let mut data = [0u8; 21];
    data[4] = 4;
    assert_eq!(ImageChunk::from_bytes(&data), Err(ParseError::UnknownChunkType(4)));
    let chunk = ImageChunk {
        chunk_id: 0x01020304,
        chunk_type: ImageChunkType::LastChunk,
        session_id: [7; 16],
        image_bytes: vec![1, 2, 3],
    };
    let bytes = chunk.to_bytes();
    assert_eq!(&bytes[..5], &[4, 3, 2, 1, 2]);
    assert_eq!(ImageChunk::from_bytes(&bytes), Ok(chunk));
}
