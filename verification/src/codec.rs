//! Audio framing codec for the device-bound binary connection.
//!
//! Outbound (core to device) audio travels as a fixed 16-byte header followed
//! by the raw payload: a 4-byte big-endian CRC32 checksum of the payload, one
//! reserved format byte (always 0) and 11 reserved zero bytes.  Inbound
//! device audio carries no such header; it arrives as interleaved stereo
//! 16-bit samples (4 bytes per sample pair) from which one 16-bit channel is
//! extracted before the bytes are forwarded upstream.

use vstd::prelude::*;

verus! {

/// Length in bytes of the header of a device-bound audio frame.
pub const HEADER_LEN: usize = 16;

/// The CRC32 checksum of a byte sequence, as the framing protocol uses it.
pub uninterp spec fn crc32_of(data: Seq<u8>) -> u32;

/// Relies on crc32fast::hash, which computes the CRC32 checksum of the
/// input; the result is a function of the input bytes alone.
#[verifier::external_body]
pub fn crc32(data: &[u8]) -> (r: u32)
    ensures
        r == crc32_of(data@),
{
    crc32fast::hash(data)
}

/// The four bytes of `x`, most significant first.
pub open spec fn u32_be_bytes(x: u32) -> Seq<u8> {
    seq![
        ((x >> 24) & 0xff) as u8,
        ((x >> 16) & 0xff) as u8,
        ((x >> 8) & 0xff) as u8,
        (x & 0xff) as u8,
    ]
}

/// The value whose big-endian bytes are `b0 b1 b2 b3`.
pub open spec fn u32_from_be_bytes(b0: u8, b1: u8, b2: u8, b3: u8) -> u32 {
    ((b0 as u32) << 24) | ((b1 as u32) << 16) | ((b2 as u32) << 8) | (b3 as u32)
}

proof fn lemma_u32_be_round_trip(x: u32)
    ensures
        u32_from_be_bytes(
            ((x >> 24) & 0xff) as u8,
            ((x >> 16) & 0xff) as u8,
            ((x >> 8) & 0xff) as u8,
            (x & 0xff) as u8,
        ) == x,
{
    assert(((((x >> 24) & 0xff) as u8) as u32) << 24 | ((((x >> 16) & 0xff) as u8) as u32) << 16
        | ((((x >> 8) & 0xff) as u8) as u32) << 8 | (((x & 0xff) as u8) as u32) == x)
        by (bit_vector);
}

/// A device-bound frame: the 16-byte header followed by the payload.
pub open spec fn spec_encode(payload: Seq<u8>) -> Seq<u8> {
    u32_be_bytes(crc32_of(payload)) + Seq::new(12, |i: int| 0u8) + payload
}

/// The checksum a frame's header carries: its first four bytes, big-endian.
pub open spec fn spec_decode_checksum(frame: Seq<u8>) -> u32
    recommends
        frame.len() >= HEADER_LEN,
{
    u32_from_be_bytes(frame[0], frame[1], frame[2], frame[3])
}

/// The payload of a frame: everything after the 16-byte header.
pub open spec fn spec_decode_payload(frame: Seq<u8>) -> Seq<u8>
    recommends
        frame.len() >= HEADER_LEN,
{
    frame.skip(HEADER_LEN as int)
}

/// Framing round trip: decoding an encoded frame yields the original payload
/// and a header checksum equal to the payload's CRC32; the header adds
/// exactly 16 bytes whatever the payload length, the empty payload included.
pub proof fn lemma_frame_round_trip(payload: Seq<u8>)
    ensures
        spec_encode(payload).len() == payload.len() + 16,
        spec_decode_payload(spec_encode(payload)) == payload,
        spec_decode_checksum(spec_encode(payload)) == crc32_of(payload),
{
    let frame = spec_encode(payload);
    assert(spec_decode_payload(frame) =~= payload);
    lemma_u32_be_round_trip(crc32_of(payload));
}

/// The two fields a frame decodes to: the checksum carried in the header and
/// the payload that follows it.
pub struct DecodedFrame {
    pub checksum: u32,
    pub payload: Vec<u8>,
}

/// Builds the device-bound frame for `payload`: CRC32 header plus payload.
pub fn encode(payload: &[u8]) -> (r: Vec<u8>)
    ensures
        r@ == spec_encode(payload@),
        r@.len() == payload@.len() + 16,
{
    let checksum = crc32(payload);
    let mut frame: Vec<u8> = Vec::new();
    proof {
        assert((checksum >> 24) & 0xff < 256 && (checksum >> 16) & 0xff < 256 && (checksum >> 8)
            & 0xff < 256 && checksum & 0xff < 256) by (bit_vector);
    }
    frame.push(((checksum >> 24) & 0xff) as u8);
    frame.push(((checksum >> 16) & 0xff) as u8);
    frame.push(((checksum >> 8) & 0xff) as u8);
    frame.push((checksum & 0xff) as u8);
    proof {
        assert(frame@ =~= u32_be_bytes(checksum));
    }
    let mut i: usize = 0;
    while i < 12
        invariant
            i <= 12,
            frame@ == u32_be_bytes(checksum) + Seq::new(i as nat, |j: int| 0u8),
        decreases 12 - i,
    {
        frame.push(0u8);
        proof {
            assert(frame@ =~= u32_be_bytes(checksum) + Seq::new((i + 1) as nat, |j: int| 0u8));
        }
        i = i + 1;
    }
    let header = Ghost(u32_be_bytes(checksum) + Seq::new(12, |j: int| 0u8));
    let mut k: usize = 0;
    while k < payload.len()
        invariant
            k <= payload@.len(),
            frame@ == header@ + payload@.subrange(0, k as int),
            header@ == u32_be_bytes(checksum) + Seq::new(12, |j: int| 0u8),
        decreases payload@.len() - k,
    {
        frame.push(payload[k]);
        proof {
            assert(frame@ =~= header@ + payload@.subrange(0, (k + 1) as int));
        }
        k = k + 1;
    }
    proof {
        assert(payload@.subrange(0, payload@.len() as int) =~= payload@);
        assert(frame@ =~= spec_encode(payload@));
    }
    frame
}

/// Splits a device-bound frame into header checksum and payload; yields
/// nothing when the input is too short to hold a header.
pub fn decode(frame: &[u8]) -> (r: Option<DecodedFrame>)
    ensures
        frame@.len() >= 16 ==> (r matches Some(d) && d.checksum == spec_decode_checksum(frame@)
            && d.payload@ == spec_decode_payload(frame@)),
        frame@.len() < 16 ==> r is None,
{
    if frame.len() < 16 {
        return None;
    }
    let checksum = ((frame[0] as u32) << 24) | ((frame[1] as u32) << 16) | ((frame[2] as u32) << 8)
        | (frame[3] as u32);
    let payload = vstd::slice::slice_to_vec(vstd::slice::slice_subrange(frame, 16, frame.len()));
    proof {
        assert(payload@ =~= spec_decode_payload(frame@));
    }
    Some(DecodedFrame { checksum, payload })
}

/// What channel extraction keeps of an inbound capture frame: the first two
/// bytes (one 16-bit channel) of every 4-byte interleaved sample pair.
pub open spec fn spec_extract_channel(frame: Seq<u8>) -> Seq<u8> {
    Seq::new(2 * (frame.len() / 4), |i: int| frame[4 * (i / 2) + (i % 2)])
}

/// De-interleaves an inbound stereo capture frame to the single 16-bit
/// channel that is forwarded upstream.
pub fn extract_channel(frame: &[u8]) -> (r: Vec<u8>)
    ensures
        r@ == spec_extract_channel(frame@),
{
    let mut out: Vec<u8> = Vec::new();
    let sample_num = frame.len() / 4;
    proof {
        vstd::arithmetic::div_mod::lemma_fundamental_div_mod(frame@.len() as int, 4);
        assert(4 * sample_num <= frame@.len());
    }
    let mut index: usize = 0;
    while index < sample_num
        invariant
            index <= sample_num,
            sample_num == frame@.len() / 4,
            4 * sample_num <= frame@.len(),
            frame@.len() <= usize::MAX,
            out@.len() == 2 * index,
            forall|i: int| 0 <= i < out@.len() ==> out@[i] == frame@[4 * (i / 2) + (i % 2)],
        decreases sample_num - index,
    {
        out.push(frame[index * 4]);
        out.push(frame[index * 4 + 1]);
        proof {
            assert(out@[2 * index as int] == frame@[4 * ((2 * index as int) / 2) + ((2 * index as int)
                % 2)]);
            assert(out@[2 * index as int + 1] == frame@[4 * ((2 * index as int + 1) / 2) + ((2 * index
                as int + 1) % 2)]);
        }
        index = index + 1;
    }
    proof {
        assert(out@ =~= spec_extract_channel(frame@));
    }
    out
}

} // verus!
