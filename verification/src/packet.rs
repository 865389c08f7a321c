//! Packet framing: the 4-byte frame header (3-byte little-endian length plus
//! 1-byte sequence number), slicing a byte buffer into header and body, and
//! classifying the packet's semantic type from its body and the protocol
//! phase.

use vstd::prelude::*;
use crate::connection::Phase;

verus! {

/// Failure of the framer.
/// - `IncompleteHeader` and `IncompleteBody` are recoverable: the caller
///   keeps the bytes and retries once more arrive.
/// - `InvalidPacket` is fatal: an empty body, or a length that the frame
///   header cannot represent.
#[derive(Clone, Copy, PartialEq, Eq, Structural, Debug)]
pub enum FramingError {
    IncompleteHeader,
    IncompleteBody,
    InvalidPacket,
}

/// Semantic type of a packet, computed once when the packet is framed.
#[derive(Clone, Copy, PartialEq, Eq, Structural, Debug)]
pub enum PacketType {
    Other,
    Command,
    OkReply,
    Eof,
    Error,
}

/// The 4-byte frame header: `size` is the exact byte length of the body that
/// follows (24-bit range), `seq` the sequence number, which wraps every 256
/// packets.
#[derive(Clone, Copy, PartialEq, Eq, Structural, Debug)]
pub struct PacketHeader {
    pub size: u32,
    pub seq: u8,
}

/// The largest body length a 3-byte frame header can carry, plus one.
pub const MAX_PACKET_SIZE: u32 = 0x1000000;

/// The header decoded from the first 4 bytes of a buffer: bytes 0 to 2 are
/// the little-endian length, byte 3 the sequence number.
pub open spec fn spec_header_of(s: Seq<u8>) -> PacketHeader {
    PacketHeader {
        size: (s[0] as nat + 0x100 * (s[1] as nat) + 0x10000 * (s[2] as nat)) as u32,
        seq: s[3],
    }
}

/// The 4 bytes that encode a header whose size is in 24-bit range.
pub open spec fn spec_header_bytes(h: PacketHeader) -> Seq<u8> {
    seq![
        (h.size % 0x100) as u8,
        ((h.size / 0x100) % 0x100) as u8,
        ((h.size / 0x10000) % 0x100) as u8,
        h.seq,
    ]
}

impl PacketHeader {
    /// Decodes the 4-byte frame header.
    pub fn from_bytes(bytes: &[u8; 4]) -> (r: PacketHeader)
        ensures
            r == spec_header_of(bytes@),
            r.size < MAX_PACKET_SIZE,
    {
        let size: u32 = bytes[0] as u32 + 0x100 * (bytes[1] as u32) + 0x10000 * (bytes[2] as u32);
        let seq = bytes[3];
        PacketHeader { size, seq }
    }

    /// Encodes the header as 4 bytes. A `size` outside the 24-bit range has
    /// no encoding and is a hard error.
    pub fn to_bytes(&self) -> (r: Result<[u8; 4], FramingError>)
        ensures
            self.size < MAX_PACKET_SIZE ==> (r matches Ok(b) && b@ == spec_header_bytes(*self)),
            self.size >= MAX_PACKET_SIZE ==> r == Err::<[u8; 4], FramingError>(
                FramingError::InvalidPacket,
            ),
    {
        if self.size >= MAX_PACKET_SIZE {
            return Err(FramingError::InvalidPacket);
        }
        let b0 = (self.size % 0x100) as u8;
        let b1 = ((self.size / 0x100) % 0x100) as u8;
        let b2 = ((self.size / 0x10000) % 0x100) as u8;
        let r: [u8; 4] = [b0, b1, b2, self.seq];
        proof {
            assert(r@ =~= spec_header_bytes(*self));
        }
        Ok(r)
    }
}

/// Law: decoding an encoded header returns the original header, for every
/// header whose size the 3-byte length field can represent.
pub proof fn lemma_header_round_trip(h: PacketHeader)
    requires
        h.size < MAX_PACKET_SIZE,
    ensures
        spec_header_of(spec_header_bytes(h)) == h,
{
    let s = h.size as int;
    vstd::arithmetic::div_mod::lemma_fundamental_div_mod(s, 0x10000);
    vstd::arithmetic::div_mod::lemma_breakdown(s, 0x100, 0x100);
    vstd::arithmetic::div_mod::lemma_small_mod((s / 0x10000) as nat, 0x100);
    assert(s % 0x10000 == 0x100 * ((s / 0x100) % 0x100) + s % 0x100);
    assert(s == 0x10000 * (s / 0x10000) + s % 0x10000);
}

/// How a nonempty body is classified, in order, first match wins: a body of
/// at least 7 bytes starting 0x00 is an OK reply; one of at most 9 bytes
/// starting 0xFE is an EOF reply; one starting 0xFF is an ERROR reply;
/// otherwise, in the command phase, a command; otherwise unclassified.
pub open spec fn spec_packet_type(body: Seq<u8>, phase: Phase) -> PacketType
    recommends
        body.len() > 0,
{
    if body.len() >= 7 && body[0] == 0x00 {
        PacketType::OkReply
    } else if body.len() <= 9 && body[0] == 0xFE {
        PacketType::Eof
    } else if body[0] == 0xFF {
        PacketType::Error
    } else if phase == Phase::Command {
        PacketType::Command
    } else {
        PacketType::Other
    }
}

/// Classifies a nonempty body given the protocol phase.
pub fn get_packet_type(body: &[u8], phase: Phase) -> (r: PacketType)
    requires
        body@.len() > 0,
    ensures
        r == spec_packet_type(body@, phase),
{
    if body.len() >= 7 && body[0] == 0x00 {
        PacketType::OkReply
    } else if body.len() <= 9 && body[0] == 0xFE {
        PacketType::Eof
    } else if body[0] == 0xFF {
        PacketType::Error
    } else if phase == Phase::Command {
        PacketType::Command
    } else {
        PacketType::Other
    }
}

/// One framed unit of the wire protocol: header, the owned body of exactly
/// `header.size` bytes, and the semantic type computed when it was framed.
pub struct Packet {
    pub header: PacketHeader,
    pub body: Vec<u8>,
    pub p_type: PacketType,
}

impl Packet {
    /// Well-formedness: the header's size is in 24-bit range and equals the
    /// body's length, and the body is nonempty.
    pub open spec fn wf(self) -> bool {
        &&& self.header.size == self.body@.len()
        &&& 0 < self.header.size < MAX_PACKET_SIZE
    }

    /// Frames the front of `bytes` into a packet: decodes the header, takes
    /// exactly `header.size` body bytes after it (trailing bytes are left
    /// for the next frame), and classifies the body under `phase`. Fails
    /// `IncompleteHeader` or `IncompleteBody` while too few bytes have
    /// arrived, and `InvalidPacket` on an empty body, which no
    /// classification can read.
    pub fn from_bytes(bytes: &[u8], phase: Phase) -> (r: Result<Packet, FramingError>)
        ensures
            bytes@.len() < 4 ==> r == Err::<Packet, FramingError>(FramingError::IncompleteHeader),
            bytes@.len() >= 4 ==> ({
                let h = spec_header_of(bytes@);
                let body = bytes@.subrange(4, 4 + h.size as int);
                if bytes@.len() < 4 + h.size {
                    r == Err::<Packet, FramingError>(FramingError::IncompleteBody)
                } else if h.size == 0 {
                    r == Err::<Packet, FramingError>(FramingError::InvalidPacket)
                } else {
                    &&& r matches Ok(p)
                    &&& p.header == h
                    &&& p.body@ == body
                    &&& p.p_type == spec_packet_type(body, phase)
                    &&& p.wf()
                }
            }),
    {
        if bytes.len() < 4 {
            return Err(FramingError::IncompleteHeader);
        }
        let raw_header: [u8; 4] = [bytes[0], bytes[1], bytes[2], bytes[3]];
        proof {
            assert(raw_header@ =~= bytes@.subrange(0, 4));
            assert(spec_header_of(raw_header@) == spec_header_of(bytes@));
        }
        let header = PacketHeader::from_bytes(&raw_header);

        let size = header.size as usize;
        if bytes.len() - 4 < size {
            return Err(FramingError::IncompleteBody);
        }
        if size == 0 {
            return Err(FramingError::InvalidPacket);
        }
        let mut body: Vec<u8> = Vec::new();
        body.extend_from_slice(&bytes[4..4 + size]);
        proof {
            assert(body@ =~= bytes@.subrange(4, 4 + size as int));
        }
        let p_type = get_packet_type(body.as_slice(), phase);
        Ok(Packet { header, body, p_type })
    }

    /// Serializes the packet: the 4 header bytes followed by the body.
    /// Consumes the packet.
    pub fn to_bytes(self) -> (r: Vec<u8>)
        requires
            self.wf(),
        ensures
            r@ == spec_header_bytes(self.header) + self.body@,
    {
        match self.header.to_bytes() {
            Ok(h) => {
                let mut ret: Vec<u8> = Vec::new();
                ret.extend_from_slice(&h);
                ret.extend_from_slice(self.body.as_slice());
                proof {
                    assert(ret@ =~= spec_header_bytes(self.header) + self.body@);
                }
                ret
            },
            Err(_) => vstd::pervasive::unreached(),
        }
    }

    /// The semantic type computed when the packet was framed.
    pub fn get_packet_type(&self) -> (r: PacketType)
        ensures
            r == self.p_type,
    {
        self.p_type
    }
}

} // verus!
