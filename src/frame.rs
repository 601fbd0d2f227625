//! Framing of packets on a byte stream: a fixed header, then a body whose
//! length the header declares.
//!
//! A stream is read in two steps. [`frame_body_len`] looks at the 21 header
//! bytes and says how many body bytes follow; [`read_packet`] then decodes the
//! header and body together. A reader over a socket reads the header, asks
//! for the body length, reads that many bytes and hands both on; the same
//! steps over an in-memory buffer are [`read_packet`] alone.
//!
//! Resynchronisation: once a header is accepted, exactly `buffer_size` body
//! bytes are consumed whatever they hold, so a body that fails to parse
//! leaves the stream aligned on the next header. A header that fails to
//! parse, or declares an implausible body, leaves no trustworthy boundary:
//! that is fatal for the connection.
use vstd::prelude::*;
use vstd::slice::slice_subrange;
use crate::packets::{
    ApplicationPacket, ParseError, PacketHeader, HEADER_LEN, MAX_BODY_LEN, header_error,
    le_u32_value, spec_decode,
};

verus! {

/// Why no packet could be read from a stream.
#[derive(Debug, Clone, Copy, PartialEq, Eq)]
pub enum PacketReadError {
    /// The stream ended before the packet was complete: the peer is gone.
    CantRead,
    /// The header does not parse.
    HeaderParseError(ParseError),
    /// The header declares a body at or above the sanity bound.
    OversizedBody(u32),
    /// Header and body were read but do not form a packet.
    PacketParseError(ParseError),
}

impl PacketReadError {
    /// Whether the connection must be closed after this error.
    pub open spec fn spec_is_fatal(self) -> bool {
        !(self is PacketParseError)
    }

    /// Whether the connection must be closed after this error: every error
    /// but a body that failed to parse, after which the stream is still
    /// aligned on the next header.
    pub fn is_fatal(&self) -> (r: bool)
        ensures
            r == self.spec_is_fatal(),
    {
        match self {
            PacketReadError::PacketParseError(_) => false,
            _ => true,
        }
    }
}

/// What the header at the start of `s` says of the body that follows.
pub open spec fn spec_frame_body_len(s: Seq<u8>) -> Result<nat, PacketReadError> {
    if s.len() < HEADER_LEN {
        Err(PacketReadError::CantRead)
    } else {
        match header_error(s.subrange(0, HEADER_LEN as int)) {
            Some(e) => Err(PacketReadError::HeaderParseError(e)),
            None => {
                let size = le_u32_value(s.subrange(16, 20));
                if size >= MAX_BODY_LEN {
                    Err(PacketReadError::OversizedBody(size))
                } else {
                    Ok(size as nat)
                }
            },
        }
    }
}

/// The first packet of the stream `s`, with the number of bytes it takes up,
/// or why there is none.
pub open spec fn spec_read_packet(s: Seq<u8>) -> Result<(ApplicationPacket, nat), PacketReadError> {
    match spec_frame_body_len(s) {
        Err(e) => Err(e),
        Ok(size) => {
            let total = HEADER_LEN + size;
            if s.len() < total {
                Err(PacketReadError::CantRead)
            } else {
                match spec_decode(s.subrange(0, total as int)) {
                    Ok(p) => Ok((p, total as nat)),
                    Err(e) => Err(PacketReadError::PacketParseError(e)),
                }
            }
        },
    }
}

/// Validates the header at the start of `s` and returns the length of the
/// body that follows it.
pub fn frame_body_len(s: &[u8]) -> (r: Result<usize, PacketReadError>)
    ensures
        match r {
            Ok(n) => spec_frame_body_len(s@) == Ok::<nat, PacketReadError>(n as nat),
            Err(e) => spec_frame_body_len(s@) == Err::<nat, PacketReadError>(e),
        },
        r is Ok ==> r->Ok_0 < MAX_BODY_LEN,
{
    if s.len() < HEADER_LEN {
        return Err(PacketReadError::CantRead);
    }
    let header = match PacketHeader::from_bytes(s) {
        Ok((h, _)) => h,
        Err(e) => {
            assert(s@.subrange(0, HEADER_LEN as int).subrange(16, 20) =~= s@.subrange(16, 20));
            assert(s@.subrange(0, HEADER_LEN as int)[20] == s@[20]);
            return Err(PacketReadError::HeaderParseError(e));
        },
    };
    assert(s@.subrange(0, HEADER_LEN as int).subrange(16, 20) =~= s@.subrange(16, 20));
    assert(s@.subrange(0, HEADER_LEN as int)[20] == s@[20]);
    if header.buffer_size >= MAX_BODY_LEN {
        return Err(PacketReadError::OversizedBody(header.buffer_size));
    }
    Ok(header.buffer_size as usize)
}

/// Reads the first packet of the stream `s`: the bytes available before the
/// stream ends. Returns the packet and the number of bytes it takes up.
pub fn read_packet(s: &[u8]) -> (r: Result<(ApplicationPacket, usize), PacketReadError>)
    ensures
        match r {
            Ok((p, n)) => spec_read_packet(s@) == Ok::<(ApplicationPacket, nat), PacketReadError>(
                (p, n as nat),
            ),
            Err(e) => spec_read_packet(s@) == Err::<(ApplicationPacket, nat), PacketReadError>(e),
        },
{
    let size = match frame_body_len(s) {
        Ok(n) => n,
        Err(e) => {
            return Err(e);
        },
    };
    let total = HEADER_LEN + size;
    if s.len() < total {
        return Err(PacketReadError::CantRead);
    }
    match ApplicationPacket::from_bytes(slice_subrange(s, 0, total)) {
        Ok(p) => Ok((p, total)),
        Err(e) => Err(PacketReadError::PacketParseError(e)),
    }
}

/// A stream that ends inside the header, or inside the body that a valid
/// header declares, yields `CantRead`.
pub proof fn lemma_truncated_stream_cant_read(s: Seq<u8>)
    requires
        s.len() < HEADER_LEN || (spec_frame_body_len(s) is Ok && s.len() < HEADER_LEN
            + spec_frame_body_len(s)->Ok_0),
    ensures
        spec_read_packet(s) == Err::<(ApplicationPacket, nat), PacketReadError>(
            PacketReadError::CantRead,
        ),
{
}

/// A valid header whose `buffer_size` reaches the sanity bound is rejected
/// before any body is read, whatever follows it.
pub proof fn lemma_oversized_body_rejected(s: Seq<u8>)
    requires
        s.len() >= HEADER_LEN,
        header_error(s.subrange(0, HEADER_LEN as int)) is None,
        le_u32_value(s.subrange(16, 20)) >= MAX_BODY_LEN,
    ensures
        spec_frame_body_len(s) == Err::<nat, PacketReadError>(
            PacketReadError::OversizedBody(le_u32_value(s.subrange(16, 20))),
        ),
        spec_read_packet(s) == Err::<(ApplicationPacket, nat), PacketReadError>(
            PacketReadError::OversizedBody(le_u32_value(s.subrange(16, 20))),
        ),
{
}

} // verus!
