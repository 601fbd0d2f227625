//! The wire format of the control channel.
//!
//! A packet is a 21-byte header followed by a body whose layout is selected by
//! a 7-bit message type:
//!
//! ```text
//! session_id[16] | buffer_size[4, little endian] | flags[1] | body[buffer_size]
//! flags: bit 7 = is_response, bits 0..=6 = message type
//! ```
use vstd::prelude::*;

verus! {

/// Length of the fixed packet header.
pub const HEADER_LEN: usize = 21;

/// Sanity bound on `buffer_size`: only small control messages travel on this
/// channel, so a body of this many bytes or more is a protocol violation.
pub const MAX_BODY_LEN: u32 = 100;

/// Fixed-size prefix of every packet.
#[derive(Debug, Clone, Copy, PartialEq, Eq)]
pub struct PacketHeader {
    pub session_id: [u8; 16],
    pub buffer_size: u32,
    pub is_response: bool,
}

#[derive(Debug, Clone, Copy, PartialEq, Eq)]
pub struct EmptyPacket {}

#[derive(Debug, Clone, Copy, PartialEq, Eq)]
pub struct RegisterDevicePacket {
    pub user_id: [u8; 16],
    pub camera_id: [u8; 16],
    pub auth_key: [u8; 16],
    pub mac_address: [u8; 6],
}

#[derive(Debug, Clone, Copy, PartialEq, Eq)]
pub struct InitiateConnectionPacket {
    pub camera_id: [u8; 16],
    pub auth_key: [u8; 16],
}

#[derive(Debug, Clone, Copy, PartialEq, Eq)]
pub struct UnregisterDevicePacket {
    pub success: u8,
}

/// Typed body of a packet.
#[derive(Debug, Clone, Copy, PartialEq, Eq)]
#[non_exhaustive]
pub enum Message {
    NoOperation(EmptyPacket),
    RegisterDevice(RegisterDevicePacket),
    UnregisterDevice(UnregisterDevicePacket),
    InitiateConnection(InitiateConnectionPacket),
}

/// One framed unit of the control protocol.
#[derive(Debug, Clone, Copy, PartialEq, Eq)]
pub struct ApplicationPacket {
    pub header: PacketHeader,
    pub message: Message,
}

/// The message type carried in the low seven bits of the flags byte.
#[derive(Debug, Clone, Copy, PartialEq, Eq)]
pub enum MessageKind {
    NoOperation,
    RegisterDevice,
    UnregisterDevice,
    InitiateConnection,
}

/// Why a byte buffer is not a packet.
#[derive(Debug, Clone, Copy, PartialEq, Eq)]
pub enum ParseError {
    /// The buffer ends before the header or the body is complete.
    NotEnoughData,
    /// Bytes remain after the body.
    TooMuchData,
    /// The message type is not one of the defined ones.
    UnknownMessageType(u8),
    /// `buffer_size` differs from the body length of the message type.
    BodySizeMismatch { declared: u32, expected: u32 },
    /// The chunk type byte of an image chunk is not one of the defined ones.
    UnknownChunkType(u8),
}

impl ParseError {
    /// A human-readable cause.
    pub fn message(&self) -> (r: &'static str)
        ensures
            r == (match self {
                ParseError::NotEnoughData => "not enough data for the packet",
                ParseError::TooMuchData => "bytes left over after the packet",
                ParseError::UnknownMessageType(_) => "unknown message type",
                ParseError::BodySizeMismatch { .. } => "buffer size does not match the message type",
                ParseError::UnknownChunkType(_) => "unknown image chunk type",
            }),
    {
        match self {
            ParseError::NotEnoughData => "not enough data for the packet",
            ParseError::TooMuchData => "bytes left over after the packet",
            ParseError::UnknownMessageType(_) => "unknown message type",
            ParseError::BodySizeMismatch { .. } => "buffer size does not match the message type",
            ParseError::UnknownChunkType(_) => "unknown image chunk type",
        }
    }
}

impl MessageKind {
    pub open spec fn spec_id(self) -> u8 {
        match self {
            MessageKind::NoOperation => 0,
            MessageKind::RegisterDevice => 1,
            MessageKind::UnregisterDevice => 2,
            MessageKind::InitiateConnection => 3,
        }
    }

    pub open spec fn spec_body_len(self) -> u32 {
        match self {
            MessageKind::NoOperation => 0,
            MessageKind::RegisterDevice => 54,
            MessageKind::UnregisterDevice => 1,
            MessageKind::InitiateConnection => 32,
        }
    }

    pub open spec fn spec_from_id(id: u8) -> Option<MessageKind> {
        if id == 0 {
            Some(MessageKind::NoOperation)
        } else if id == 1 {
            Some(MessageKind::RegisterDevice)
        } else if id == 2 {
            Some(MessageKind::UnregisterDevice)
        } else if id == 3 {
            Some(MessageKind::InitiateConnection)
        } else {
            None
        }
    }

    /// The discriminant written on the wire.
    pub fn id(&self) -> (r: u8)
        ensures
            r == self.spec_id(),
    {
        match self {
            MessageKind::NoOperation => 0,
            MessageKind::RegisterDevice => 1,
            MessageKind::UnregisterDevice => 2,
            MessageKind::InitiateConnection => 3,
        }
    }

    /// Length of the body that follows the header for this message type.
    pub fn body_len(&self) -> (r: u32)
        ensures
            r == self.spec_body_len(),
    {
        match self {
            MessageKind::NoOperation => 0,
            MessageKind::RegisterDevice => 54,
            MessageKind::UnregisterDevice => 1,
            MessageKind::InitiateConnection => 32,
        }
    }

    /// The message type with discriminant `id`, if there is one.
    pub fn from_id(id: u8) -> (r: Option<MessageKind>)
        ensures
            r == Self::spec_from_id(id),
    {
        if id == 0 {
            Some(MessageKind::NoOperation)
        } else if id == 1 {
            Some(MessageKind::RegisterDevice)
        } else if id == 2 {
            Some(MessageKind::UnregisterDevice)
        } else if id == 3 {
            Some(MessageKind::InitiateConnection)
        } else {
            None
        }
    }
}

pub proof fn lemma_kind_id_round_trip(k: MessageKind)
    ensures
        MessageKind::spec_from_id(k.spec_id()) == Some(k),
        k.spec_id() < 128,
{
}

impl Message {
    pub open spec fn spec_kind(self) -> MessageKind {
        match self {
            Message::NoOperation(_) => MessageKind::NoOperation,
            Message::RegisterDevice(_) => MessageKind::RegisterDevice,
            Message::UnregisterDevice(_) => MessageKind::UnregisterDevice,
            Message::InitiateConnection(_) => MessageKind::InitiateConnection,
        }
    }

    /// The message type of this body.
    pub fn kind(&self) -> (r: MessageKind)
        ensures
            r == self.spec_kind(),
    {
        match self {
            Message::NoOperation(_) => MessageKind::NoOperation,
            Message::RegisterDevice(_) => MessageKind::RegisterDevice,
            Message::UnregisterDevice(_) => MessageKind::UnregisterDevice,
            Message::InitiateConnection(_) => MessageKind::InitiateConnection,
        }
    }
}

/// Little-endian bytes of a 32-bit value.
pub open spec fn le_u32_bytes(v: u32) -> Seq<u8> {
    seq![
        (v % 256) as u8,
        ((v / 256) % 256) as u8,
        ((v / 65536) % 256) as u8,
        (v / 16777216) as u8,
    ]
}

/// The 32-bit value of four little-endian bytes.
pub open spec fn le_u32_value(b: Seq<u8>) -> u32
    recommends
        b.len() == 4,
{
    (b[0] + 256 * b[1] + 65536 * b[2] + 16777216 * b[3]) as u32
}

pub proof fn lemma_le_u32_round_trip(v: u32)
    ensures
        le_u32_value(le_u32_bytes(v)) == v,
        le_u32_bytes(v).len() == 4,
{
}

pub proof fn lemma_le_u32_bytes_of_value(b: Seq<u8>)
    requires
        b.len() == 4,
    ensures
        le_u32_bytes(le_u32_value(b)) == b,
{
    let b0 = b[0] as u32;
    let b1 = b[1] as u32;
    let b2 = b[2] as u32;
    let b3 = b[3] as u32;
    let v = le_u32_value(b);
    assert(v == b0 + 256 * b1 + 65536 * b2 + 16777216 * b3);
    assert(v % 256 == b0 && (v / 256) % 256 == b1 && (v / 65536) % 256 == b2 && v / 16777216
        == b3) by (bit_vector)
        requires
            v == b0 + 256 * b1 + 65536 * b2 + 16777216 * b3,
            b0 < 256,
            b1 < 256,
            b2 < 256,
            b3 < 256,
    ;
    assert(le_u32_bytes(v) =~= b);
}

/// The flags byte: the response bit on top of the message type.
pub open spec fn flags_byte(is_response: bool, id: u8) -> u8 {
    if is_response {
        (128 + id) as u8
    } else {
        id
    }
}

/// The 21 header bytes for a header and a message type.
pub open spec fn header_bytes(h: PacketHeader, kind: MessageKind) -> Seq<u8> {
    h.session_id@ + le_u32_bytes(h.buffer_size) + seq![flags_byte(h.is_response, kind.spec_id())]
}

/// The body bytes of a message, fields in declaration order.
pub open spec fn body_bytes(m: Message) -> Seq<u8> {
    match m {
        Message::NoOperation(_) => Seq::empty(),
        Message::RegisterDevice(r) => r.user_id@ + r.camera_id@ + r.auth_key@ + r.mac_address@,
        Message::UnregisterDevice(u) => seq![u.success],
        Message::InitiateConnection(i) => i.camera_id@ + i.auth_key@,
    }
}

/// The encoding of a packet.
pub open spec fn packet_bytes(p: ApplicationPacket) -> Seq<u8> {
    header_bytes(p.header, p.message.spec_kind()) + body_bytes(p.message)
}

impl ApplicationPacket {
    /// A packet whose `buffer_size` is the body length of its message.
    pub open spec fn wf(self) -> bool {
        self.header.buffer_size == self.message.spec_kind().spec_body_len()
    }
}

/// Appends `a` to `out`.
fn push_all(out: &mut Vec<u8>, a: &[u8])
    ensures
        final(out)@ == old(out)@ + a@,
{
    let mut i: usize = 0;
    while i < a.len()
        invariant
            0 <= i <= a@.len(),
            out@ == old(out)@ + a@.subrange(0, i as int),
        decreases a@.len() - i,
    {
        out.push(a[i]);
        i = i + 1;
        assert(out@ =~= old(out)@ + a@.subrange(0, i as int));
    }
    assert(a@.subrange(0, a@.len() as int) =~= a@);
}

/// Appends the little-endian bytes of `v` to `out`.
fn push_le_u32(out: &mut Vec<u8>, v: u32)
    ensures
        final(out)@ == old(out)@ + le_u32_bytes(v),
{
    out.push((v % 256) as u8);
    out.push(((v / 256) % 256) as u8);
    out.push(((v / 65536) % 256) as u8);
    out.push((v / 16777216) as u8);
    assert(out@ =~= old(out)@ + le_u32_bytes(v));
}

impl PacketHeader {
    /// Encodes the header for a message of type `kind`.
    pub fn to_bytes(&self, kind: MessageKind) -> (r: Vec<u8>)
        ensures
            r@ == header_bytes(*self, kind),
            r@.len() == HEADER_LEN,
    {
        let mut out: Vec<u8> = Vec::new();
        push_all(&mut out, &self.session_id);
        push_le_u32(&mut out, self.buffer_size);
        let id = kind.id();
        let flags: u8 = if self.is_response {
            128 + id
        } else {
            id
        };
        out.push(flags);
        assert(out@ =~= header_bytes(*self, kind));
        out
    }
}

impl ApplicationPacket {
    /// Encodes the packet: header, then the body fields in order.
    pub fn to_bytes(&self) -> (r: Vec<u8>)
        ensures
            r@ == packet_bytes(*self),
    {
        let mut out = self.header.to_bytes(self.message.kind());
        let ghost head = out@;
        match &self.message {
            Message::NoOperation(_) => {},
            Message::RegisterDevice(r) => {
                push_all(&mut out, &r.user_id);
                push_all(&mut out, &r.camera_id);
                push_all(&mut out, &r.auth_key);
                push_all(&mut out, &r.mac_address);
            },
            Message::UnregisterDevice(u) => {
                out.push(u.success);
            },
            Message::InitiateConnection(i) => {
                push_all(&mut out, &i.camera_id);
                push_all(&mut out, &i.auth_key);
            },
        }
        assert(out@ =~= packet_bytes(*self));
        out
    }
}

/// Why the header region of `b` is not a valid header, if it is not.
pub open spec fn header_error(b: Seq<u8>) -> Option<ParseError> {
    if b.len() < HEADER_LEN {
        Some(ParseError::NotEnoughData)
    } else if MessageKind::spec_from_id((b[20] % 128) as u8) is None {
        Some(ParseError::UnknownMessageType((b[20] % 128) as u8))
    } else {
        None
    }
}

/// The message type named by a valid header region.
pub open spec fn header_kind(b: Seq<u8>) -> MessageKind {
    MessageKind::spec_from_id((b[20] % 128) as u8).unwrap()
}

/// `h` holds the session id, body size and response bit written in `b`.
pub open spec fn header_read_from(h: PacketHeader, b: Seq<u8>) -> bool {
    &&& h.session_id@ == b.subrange(0, 16)
    &&& h.buffer_size == le_u32_value(b.subrange(16, 20))
    &&& h.is_response == (b[20] >= 128)
}

/// Why `b` is not exactly one packet, if it is not.
pub open spec fn packet_error(b: Seq<u8>) -> Option<ParseError> {
    if header_error(b) is Some {
        header_error(b)
    } else {
        let declared = le_u32_value(b.subrange(16, 20));
        let expected = header_kind(b).spec_body_len();
        if declared != expected {
            Some(ParseError::BodySizeMismatch { declared, expected })
        } else if b.len() < HEADER_LEN + expected {
            Some(ParseError::NotEnoughData)
        } else if b.len() > HEADER_LEN + expected {
            Some(ParseError::TooMuchData)
        } else {
            None
        }
    }
}

/// The packet that `b` encodes, or why there is none.
pub open spec fn spec_decode(b: Seq<u8>) -> Result<ApplicationPacket, ParseError> {
    match packet_error(b) {
        Some(e) => Err(e),
        None => Ok(choose|p: ApplicationPacket| p.wf() && packet_bytes(p) == b),
    }
}

/// Where each part of a packet stands in its encoding.
pub proof fn lemma_packet_layout(p: ApplicationPacket)
    ensures
        packet_bytes(p).len() == HEADER_LEN + body_bytes(p.message).len(),
        packet_bytes(p).subrange(0, 16) == p.header.session_id@,
        packet_bytes(p).subrange(16, 20) == le_u32_bytes(p.header.buffer_size),
        packet_bytes(p)[20] == flags_byte(p.header.is_response, p.message.spec_kind().spec_id()),
        packet_bytes(p).subrange(HEADER_LEN as int, packet_bytes(p).len() as int) == body_bytes(
            p.message,
        ),
        body_bytes(p.message).len() == p.message.spec_kind().spec_body_len(),
{
    let s = packet_bytes(p);
    let h = header_bytes(p.header, p.message.spec_kind());
    assert(h.len() == 21);
    assert(s.subrange(0, 16) =~= p.header.session_id@);
    assert(s.subrange(16, 20) =~= le_u32_bytes(p.header.buffer_size));
    assert(s.subrange(21, s.len() as int) =~= body_bytes(p.message));
}

/// Two packets with the same encoding are the same packet.
pub proof fn lemma_packet_bytes_injective(p: ApplicationPacket, q: ApplicationPacket)
    requires
        packet_bytes(p) == packet_bytes(q),
    ensures
        p == q,
{
    lemma_packet_layout(p);
    lemma_packet_layout(q);
    assert(p.header.session_id =~= q.header.session_id);
    lemma_le_u32_round_trip(p.header.buffer_size);
    lemma_le_u32_round_trip(q.header.buffer_size);
    let kp = p.message.spec_kind();
    let kq = q.message.spec_kind();
    lemma_kind_id_round_trip(kp);
    lemma_kind_id_round_trip(kq);
    assert(kp.spec_id() == kq.spec_id());
    assert(kp == kq);
    let body = body_bytes(p.message);
    match (p.message, q.message) {
        (Message::RegisterDevice(a), Message::RegisterDevice(b)) => {
            assert(a.user_id@ =~= body.subrange(0, 16));
            assert(b.user_id@ =~= body.subrange(0, 16));
            assert(a.camera_id@ =~= body.subrange(16, 32));
            assert(b.camera_id@ =~= body.subrange(16, 32));
            assert(a.auth_key@ =~= body.subrange(32, 48));
            assert(b.auth_key@ =~= body.subrange(32, 48));
            assert(a.mac_address@ =~= body.subrange(48, 54));
            assert(b.mac_address@ =~= body.subrange(48, 54));
            assert(a.user_id =~= b.user_id);
            assert(a.camera_id =~= b.camera_id);
            assert(a.auth_key =~= b.auth_key);
            assert(a.mac_address =~= b.mac_address);
        },
        (Message::UnregisterDevice(a), Message::UnregisterDevice(b)) => {
            assert(a.success == body[0]);
        },
        (Message::InitiateConnection(a), Message::InitiateConnection(b)) => {
            assert(a.camera_id@ =~= body.subrange(0, 16));
            assert(b.camera_id@ =~= body.subrange(0, 16));
            assert(a.auth_key@ =~= body.subrange(16, 32));
            assert(b.auth_key@ =~= body.subrange(16, 32));
            assert(a.camera_id =~= b.camera_id);
            assert(a.auth_key =~= b.auth_key);
        },
        _ => {},
    }
}

/// Decoding the encoding of a packet gives the packet back.
pub proof fn lemma_decode_encode(p: ApplicationPacket)
    requires
        p.wf(),
    ensures
        spec_decode(packet_bytes(p)) == Ok::<ApplicationPacket, ParseError>(p),
{
    let s = packet_bytes(p);
    lemma_packet_layout(p);
    lemma_le_u32_round_trip(p.header.buffer_size);
    lemma_kind_id_round_trip(p.message.spec_kind());
    assert(s[20] % 128 == p.message.spec_kind().spec_id());
    assert(header_error(s) is None);
    assert(header_kind(s) == p.message.spec_kind());
    assert(packet_error(s) is None);
    let q = choose|q: ApplicationPacket| q.wf() && packet_bytes(q) == s;
    lemma_packet_bytes_injective(p, q);
}

/// Copies `N` bytes of `b` from `start` on into an array.
fn read_array<const N: usize>(b: &[u8], start: usize) -> (r: [u8; N])
    requires
        start + N <= b.len(),
    ensures
        r@ == b@.subrange(start as int, start + N),
{
    let mut a = [0u8; N];
    let mut i: usize = 0;
    while i < N
        invariant
            0 <= i <= N,
            start + N <= b.len(),
            a@.len() == N,
            forall|j: int| 0 <= j < i ==> a@[j] == b@[start + j],
        decreases N - i,
    {
        a[i] = b[start + i];
        i = i + 1;
    }
    assert(a@ =~= b@.subrange(start as int, start + N));
    a
}

/// The value of the four little-endian bytes of `b` from `start` on.
fn read_le_u32(b: &[u8], start: usize) -> (r: u32)
    requires
        start + 4 <= b@.len(),
    ensures
        r == le_u32_value(b@.subrange(start as int, start + 4)),
{
    let v = b[start] as u32 + 256 * (b[start + 1] as u32) + 65536 * (b[start + 2] as u32)
        + 16777216 * (b[start + 3] as u32);
    v
}

impl PacketHeader {
    /// Decodes the 21-byte header region at the start of `b`, with the
    /// message type that its flags byte names.
    pub fn from_bytes(b: &[u8]) -> (r: Result<(PacketHeader, MessageKind), ParseError>)
        ensures
            match r {
                Ok((h, k)) => {
                    &&& header_error(b@) is None
                    &&& header_read_from(h, b@)
                    &&& k == header_kind(b@)
                },
                Err(e) => header_error(b@) == Some(e),
            },
    {
        if b.len() < HEADER_LEN {
            return Err(ParseError::NotEnoughData);
        }
        let flags = b[20];
        let kind = match MessageKind::from_id(flags % 128) {
            Some(k) => k,
            None => {
                return Err(ParseError::UnknownMessageType(flags % 128));
            },
        };
        let header = PacketHeader {
            session_id: read_array(b, 0),
            buffer_size: read_le_u32(b, 16),
            is_response: flags >= 128,
        };
        Ok((header, kind))
    }
}

impl ApplicationPacket {
    /// Decodes a buffer that holds exactly one packet.
    pub fn from_bytes(b: &[u8]) -> (r: Result<ApplicationPacket, ParseError>)
        ensures
            r == spec_decode(b@),
    {
        let (header, kind) = match PacketHeader::from_bytes(b) {
            Ok(x) => x,
            Err(e) => {
                return Err(e);
            },
        };
        let expected = kind.body_len();
        if header.buffer_size != expected {
            return Err(ParseError::BodySizeMismatch { declared: header.buffer_size, expected });
        }
        let total = HEADER_LEN + expected as usize;
        if b.len() < total {
            return Err(ParseError::NotEnoughData);
        }
        if b.len() > total {
            return Err(ParseError::TooMuchData);
        }
        let message = match kind {
            MessageKind::NoOperation => Message::NoOperation(EmptyPacket {  }),
            MessageKind::RegisterDevice => Message::RegisterDevice(
                RegisterDevicePacket {
                    user_id: read_array(b, 21),
                    camera_id: read_array(b, 37),
                    auth_key: read_array(b, 53),
                    mac_address: read_array(b, 69),
                },
            ),
            MessageKind::UnregisterDevice => Message::UnregisterDevice(
                UnregisterDevicePacket { success: b[21] },
            ),
            MessageKind::InitiateConnection => Message::InitiateConnection(
                InitiateConnectionPacket { camera_id: read_array(b, 21), auth_key: read_array(b, 37) },
            ),
        };
        let p = ApplicationPacket { header, message };
        proof {
            lemma_le_u32_bytes_of_value(b@.subrange(16, 20));
            lemma_kind_id_round_trip(kind);
            assert(flags_byte(header.is_response, kind.spec_id()) == b@[20]);
            assert(packet_bytes(p) =~= b@);
            let q = choose|q: ApplicationPacket| q.wf() && packet_bytes(q) == b@;
            lemma_packet_bytes_injective(p, q);
        }
        Ok(p)
    }
}

/// Position of an image chunk within its image.
#[derive(Debug, Clone, Copy, PartialEq, Eq)]
pub enum ImageChunkType {
    MiddleChunk,
    FirstChunk,
    LastChunk,
    OnlyChunk,
}

impl ImageChunkType {
    pub open spec fn spec_id(self) -> u8 {
        match self {
            ImageChunkType::MiddleChunk => 0,
            ImageChunkType::FirstChunk => 1,
            ImageChunkType::LastChunk => 2,
            ImageChunkType::OnlyChunk => 3,
        }
    }

    pub open spec fn spec_from_id(id: u8) -> Option<ImageChunkType> {
        if id == 0 {
            Some(ImageChunkType::MiddleChunk)
        } else if id == 1 {
            Some(ImageChunkType::FirstChunk)
        } else if id == 2 {
            Some(ImageChunkType::LastChunk)
        } else if id == 3 {
            Some(ImageChunkType::OnlyChunk)
        } else {
            None
        }
    }

    /// The byte written on the wire.
    pub fn id(&self) -> (r: u8)
        ensures
            r == self.spec_id(),
    {
        match self {
            ImageChunkType::MiddleChunk => 0,
            ImageChunkType::FirstChunk => 1,
            ImageChunkType::LastChunk => 2,
            ImageChunkType::OnlyChunk => 3,
        }
    }

    /// The chunk type written as `id`, if there is one.
    pub fn from_id(id: u8) -> (r: Option<ImageChunkType>)
        ensures
            r == Self::spec_from_id(id),
    {
        if id == 0 {
            Some(ImageChunkType::MiddleChunk)
        } else if id == 1 {
            Some(ImageChunkType::FirstChunk)
        } else if id == 2 {
            Some(ImageChunkType::LastChunk)
        } else if id == 3 {
            Some(ImageChunkType::OnlyChunk)
        } else {
            None
        }
    }
}

/// A piece of image data, framed on its own: the image bytes run to the end
/// of the buffer.
#[derive(Debug, Clone, PartialEq, Eq)]
pub struct ImageChunk {
    pub chunk_id: u32,
    pub chunk_type: ImageChunkType,
    pub session_id: [u8; 16],
    pub image_bytes: Vec<u8>,
}

/// Length of the fixed part of an image chunk.
pub const CHUNK_PREFIX_LEN: usize = 21;

/// The encoding of an image chunk.
pub open spec fn chunk_bytes(c: ImageChunk) -> Seq<u8> {
    le_u32_bytes(c.chunk_id) + seq![c.chunk_type.spec_id()] + c.session_id@ + c.image_bytes@
}

/// Why `b` is not an image chunk, if it is not.
pub open spec fn chunk_error(b: Seq<u8>) -> Option<ParseError> {
    if b.len() < CHUNK_PREFIX_LEN {
        Some(ParseError::NotEnoughData)
    } else if ImageChunkType::spec_from_id(b[4]) is None {
        Some(ParseError::UnknownChunkType(b[4]))
    } else {
        None
    }
}

impl ImageChunk {
    /// Encodes the chunk: id, type, session id, then the image bytes.
    pub fn to_bytes(&self) -> (r: Vec<u8>)
        ensures
            r@ == chunk_bytes(*self),
    {
        let mut out: Vec<u8> = Vec::new();
        push_le_u32(&mut out, self.chunk_id);
        out.push(self.chunk_type.id());
        push_all(&mut out, &self.session_id);
        push_all(&mut out, self.image_bytes.as_slice());
        assert(out@ =~= chunk_bytes(*self));
        out
    }

    /// Decodes a buffer that holds exactly one image chunk.
    pub fn from_bytes(b: &[u8]) -> (r: Result<ImageChunk, ParseError>)
        ensures
            match r {
                Ok(c) => chunk_error(b@) is None && chunk_bytes(c) == b@,
                Err(e) => chunk_error(b@) == Some(e),
            },
    {
        if b.len() < CHUNK_PREFIX_LEN {
            return Err(ParseError::NotEnoughData);
        }
        let chunk_type = match ImageChunkType::from_id(b[4]) {
            Some(t) => t,
            None => {
                return Err(ParseError::UnknownChunkType(b[4]));
            },
        };
        let chunk_id = read_le_u32(b, 0);
        let session_id: [u8; 16] = read_array(b, 5);
        let mut image_bytes: Vec<u8> = Vec::new();
        let mut i: usize = CHUNK_PREFIX_LEN;
        while i < b.len()
            invariant
                CHUNK_PREFIX_LEN <= i <= b@.len(),
                image_bytes@ == b@.subrange(CHUNK_PREFIX_LEN as int, i as int),
            decreases b@.len() - i,
        {
            image_bytes.push(b[i]);
            i = i + 1;
            assert(image_bytes@ =~= b@.subrange(CHUNK_PREFIX_LEN as int, i as int));
        }
        let c = ImageChunk { chunk_id, chunk_type, session_id, image_bytes };
        proof {
            lemma_le_u32_bytes_of_value(b@.subrange(0, 4));
            assert(chunk_bytes(c) =~= b@);
        }
        Ok(c)
    }
}

} // verus!
