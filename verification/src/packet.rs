//! The relay's framing codec.
//!
//! The relay accepts frames over the stream connection and forwards their
//! payload to the destination they name over a datagram socket.
//!
//! ```text
//! |   0  |   1  |   2  |      3-4      |       5        |    6-9   |   10-11    | 12-... |
//! |------+------+------+---------------+----------------+----------+------------+--------|
//! | 0x17 | 0x03 | 0x03 | Packet length | version (0x04) | Dest. IP | Dest. port | Data   |
//! ```
//!
//! `0x17 0x03 0x03` imitates a TLS frame beginning. The length field is
//! big-endian and counts the payload plus 7 (1 version byte, 4 address
//! octets, 2 port bytes). Only IPv4 destinations are supported.

use vstd::prelude::*;
use vstd::arithmetic::div_mod::{lemma_fundamental_div_mod, lemma_fundamental_div_mod_converse};

verus! {

/// An IPv4 address and port, held as plain values so that contracts can
/// speak of every octet directly. Only IPv4 endpoints exist in this model:
/// the wire format has no room for anything else.
#[derive(Clone, Copy, Debug, PartialEq, Eq, Structural)]
pub struct Ipv4Endpoint {
    pub ip0: u8,
    pub ip1: u8,
    pub ip2: u8,
    pub ip3: u8,
    pub port: u16,
}

/// Why a received byte sequence could not be decoded as a frame.
#[derive(Clone, Copy, Debug, PartialEq, Eq, Structural)]
pub enum FrameError {
    /// Fewer bytes were received than the header, or the header's length
    /// field, requires.
    BufferTooSmall,
    /// The length field claims fewer bytes than the fixed header tail
    /// (version, address and port) itself occupies.
    InvalidLength,
}

/// The largest payload a frame can carry: the length field is 16 bits and
/// counts the payload plus 7.
pub const MAX_PAYLOAD_LEN: usize = 65528;

/// The 16-bit big-endian length field at offsets 3-4.
pub open spec fn spec_len_field(b: Seq<u8>) -> int {
    (b[3] as int) * 256 + (b[4] as int)
}

/// The payload length a frame header declares: the length field minus the
/// 7 bytes of version, address and port.
pub open spec fn spec_payload_len(b: Seq<u8>) -> int {
    spec_len_field(b) - 7
}

/// The destination endpoint named by a frame header: four address octets at
/// offsets 6-9 and a big-endian port at offsets 10-11.
pub open spec fn spec_dest(b: Seq<u8>) -> Ipv4Endpoint {
    Ipv4Endpoint {
        ip0: b[6],
        ip1: b[7],
        ip2: b[8],
        ip3: b[9],
        port: ((b[10] as int) * 256 + (b[11] as int)) as u16,
    }
}

/// The 12-byte header that addresses `payload_len` bytes to `dst`.
pub open spec fn spec_header(dst: Ipv4Endpoint, payload_len: int) -> Seq<u8> {
    seq![
        0x17u8,
        0x03u8,
        0x03u8,
        ((payload_len + 7) / 256) as u8,
        ((payload_len + 7) % 256) as u8,
        4u8,
        dst.ip0,
        dst.ip1,
        dst.ip2,
        dst.ip3,
        (dst.port as int / 256) as u8,
        (dst.port as int % 256) as u8,
    ]
}

/// A whole frame: the header for `payload`, then `payload` itself.
pub open spec fn spec_frame(dst: Ipv4Endpoint, payload: Seq<u8>) -> Seq<u8> {
    spec_header(dst, payload.len() as int) + payload
}

/// What decoding a received byte sequence yields: the declared destination
/// and payload length, or the error that names what is wrong with it.
pub open spec fn spec_decode(b: Seq<u8>) -> Result<(Ipv4Endpoint, usize), FrameError> {
    if b.len() < 12 {
        Err(FrameError::BufferTooSmall)
    } else if spec_len_field(b) < 7 {
        Err(FrameError::InvalidLength)
    } else if b.len() < 12 + spec_payload_len(b) {
        Err(FrameError::BufferTooSmall)
    } else {
        Ok((spec_dest(b), spec_payload_len(b) as usize))
    }
}

/// Combining a big-endian byte pair is the same as place-value arithmetic.
pub(crate) proof fn lemma_be16_combine(h: u16, l: u16)
    requires
        h < 256,
        l < 256,
    ensures
        ((h << 8) | l) == h * 256 + l,
{
    assert((h < 256 && l < 256) ==> ((h << 8) | l) == h * 256 + l) by (bit_vector);
}

/// Splitting a 16-bit value into big-endian bytes is division by 256.
proof fn lemma_be16_split(t: u16)
    ensures
        ((t >> 8) & 0xff) == t as int / 256,
        (t & 0xff) == t as int % 256,
{
    assert((((t >> 8) & 0xff) * 256 + (t & 0xff)) == t && ((t >> 8) & 0xff) < 256 && (t & 0xff)
        < 256) by (bit_vector);
    lemma_fundamental_div_mod_converse(
        t as int,
        256,
        (((t >> 8) & 0xff) as u16) as int,
        ((t & 0xff) as u16) as int,
    );
}

/// Reads a frame header: the destination endpoint and the declared payload
/// length.
///
/// The caller must already know that at least the 12 header bytes are
/// present and that the length field covers the fixed header tail; the
/// disguise bytes and the version byte are not validated on this path.
/// `decode_outbound_frame` is the checked form.
pub fn packet_info(bytes: &[u8]) -> (r: (Ipv4Endpoint, usize))
    requires
        bytes@.len() >= 12,
        spec_len_field(bytes@) >= 7,
    ensures
        r.0 == spec_dest(bytes@),
        r.1 == spec_payload_len(bytes@),
{
    let len_field: u16 = ((bytes[3] as u16) << 8) | (bytes[4] as u16);
    proof {
        lemma_be16_combine(bytes[3] as u16, bytes[4] as u16);
    }
    let payload_length: usize = (len_field - 7) as usize;

    let port: u16 = ((bytes[10] as u16) << 8) | (bytes[11] as u16);
    proof {
        lemma_be16_combine(bytes[10] as u16, bytes[11] as u16);
    }
    let dest = Ipv4Endpoint { ip0: bytes[6], ip1: bytes[7], ip2: bytes[8], ip3: bytes[9], port };

    (dest, payload_length)
}

/// Decodes a received byte sequence as a frame, with every bound checked:
/// the result is exactly `spec_decode` of the input.
///
/// Unlike `packet_info` this rejects inputs shorter than the header, a
/// length field below 7, and a declared payload that the received bytes do
/// not cover.
pub fn decode_outbound_frame(frame: &[u8]) -> (r: Result<(Ipv4Endpoint, usize), FrameError>)
    ensures
        r == spec_decode(frame@),
{
    if frame.len() < 12 {
        return Err(FrameError::BufferTooSmall);
    }
    let len_field: u16 = ((frame[3] as u16) << 8) | (frame[4] as u16);
    proof {
        lemma_be16_combine(frame[3] as u16, frame[4] as u16);
    }
    if len_field < 7 {
        return Err(FrameError::InvalidLength);
    }
    let payload_length: usize = (len_field - 7) as usize;
    if frame.len() - 12 < payload_length {
        return Err(FrameError::BufferTooSmall);
    }
    let (dest, len) = packet_info(frame);
    Ok((dest, len))
}

/// Writes the 12-byte header addressing `payload_length` bytes to
/// `dest_addr` into `bytes`.
///
/// Used to send data received from a remote node over the datagram socket
/// back to the client over the stream: the header is regenerated from the
/// datagram's source address and length.
pub fn packet_header(dest_addr: &Ipv4Endpoint, payload_length: usize, bytes: &mut [u8; 12])
    requires
        payload_length <= MAX_PAYLOAD_LEN,
    ensures
        final(bytes)@ == spec_header(*dest_addr, payload_length as int),
{
    // imitate a TLS 1.2 header
    bytes[0] = 0x17;
    bytes[1] = 0x03;
    bytes[2] = 0x03;

    // total_length = payload_length + 7 (7 = 1:version, 4:ip, 2:port)
    let total_length: u16 = (payload_length as u16) + 7;
    bytes[3] = ((total_length >> 8) & 0xff) as u8;
    bytes[4] = (total_length & 0xff) as u8;

    // version (IPv4)
    bytes[5] = 4;

    // destination ip address
    bytes[6] = dest_addr.ip0;
    bytes[7] = dest_addr.ip1;
    bytes[8] = dest_addr.ip2;
    bytes[9] = dest_addr.ip3;

    // destination port
    let port = dest_addr.port;
    bytes[10] = ((port >> 8) & 0xff) as u8;
    bytes[11] = (port & 0xff) as u8;

    proof {
        lemma_be16_split(total_length);
        lemma_be16_split(port);
        assert(bytes@ =~= spec_header(*dest_addr, payload_length as int));
    }
}

/// Builds a whole frame addressed to `dest_addr`: the 12-byte header, then
/// `payload`. This is the client-side encoder; the relay itself only ever
/// sends headers followed by datagram bodies, which this also models.
pub fn encode_frame(dest_addr: &Ipv4Endpoint, payload: &[u8]) -> (r: Vec<u8>)
    requires
        payload@.len() <= MAX_PAYLOAD_LEN,
    ensures
        r@ == spec_frame(*dest_addr, payload@),
{
    let mut header: [u8; 12] = [0; 12];
    packet_header(dest_addr, payload.len(), &mut header);

    let ghost h = spec_header(*dest_addr, payload@.len() as int);
    let mut out: Vec<u8> = Vec::new();
    let mut i: usize = 0;
    while i < 12
        invariant
            i <= 12,
            header@ == h,
            out@ == h.subrange(0, i as int),
        decreases 12 - i,
    {
        out.push(header[i]);
        i = i + 1;
        proof {
            assert(out@ =~= h.subrange(0, i as int));
        }
    }
    proof {
        assert(out@ =~= h);
    }

    let mut j: usize = 0;
    while j < payload.len()
        invariant
            j <= payload@.len(),
            out@ == h + payload@.subrange(0, j as int),
        decreases payload@.len() - j,
    {
        out.push(payload[j]);
        j = j + 1;
        proof {
            assert(out@ =~= h + payload@.subrange(0, j as int));
        }
    }
    proof {
        assert(out@ =~= spec_frame(*dest_addr, payload@));
    }
    out
}

/// Round-trip law: decoding an encoded frame yields exactly the destination
/// and payload length it was built from, and the bytes past the header are
/// exactly the payload.
///
/// Read in one direction this covers frames a client encodes and the relay
/// decodes; read in the other it covers headers the relay regenerates for a
/// datagram and a client-side decoder then takes apart.
pub proof fn lemma_frame_round_trip(dst: Ipv4Endpoint, payload: Seq<u8>)
    requires
        payload.len() <= MAX_PAYLOAD_LEN,
    ensures
        spec_decode(spec_frame(dst, payload)) == Ok::<(Ipv4Endpoint, usize), FrameError>(
            (dst, payload.len() as usize),
        ),
        spec_frame(dst, payload).subrange(12, 12 + payload.len() as int) == payload,
{
    let n = payload.len() as int;
    let b = spec_frame(dst, payload);
    let h = spec_header(dst, n);
    assert(b.len() == 12 + n);

    lemma_fundamental_div_mod(n + 7, 256);
    assert(spec_len_field(b) == n + 7);

    lemma_fundamental_div_mod(dst.port as int, 256);
    assert(spec_dest(b) == dst);

    assert(b.subrange(12, 12 + n) =~= payload);
}

} // verus!
