//! Frame layer: the fixed 14-byte header (magic, version, flags, length,
//! CRC-32 checksum) around each encoded envelope, and its validation.

use vstd::prelude::*;
use vstd::bytes::{spec_u32_to_le_bytes, spec_u32_from_le_bytes, u32_to_le_bytes, u32_from_le_bytes,
    lemma_auto_spec_u32_to_from_le_bytes};
use vstd::slice::slice_subrange;
use crate::codec::{enc_msg, wf_msg, dec_msg_s, lemma_message_round_trip};
use crate::error::IpcError;
use crate::wire::{IpcMessage, IpcMessageView};
use crate::encode::encode_message;
use crate::decode::decode_message;

verus! {

/// Protocol version carried in every frame header.
pub const PROTOCOL_VERSION: u8 = 1;

/// Default cap on the encoded payload of one frame, in bytes (1 MiB).
pub const MAX_MESSAGE_SIZE: u32 = 1048576;

/// The magic bytes that open every frame: `A T O M`.
pub open spec fn magic_bytes() -> Seq<u8> {
    seq![0x41u8, 0x54u8, 0x4Fu8, 0x4Du8]
}

/// Frame header, encoded as exactly 14 bytes on the wire:
/// `magic[4] version[1] flags[1] length[4] checksum[4]`, little-endian.
#[derive(Debug, Clone, Copy)]
pub struct FrameHeader {
    pub magic: [u8; 4],
    pub version: u8,
    pub flags: u8,
    pub length: u32,
    pub checksum: u32,
}

/// The IEEE CRC-32 of a byte sequence, a function of those bytes alone.
pub uninterp spec fn crc32_of(data: Seq<u8>) -> u32;

/// Relies on `crc32fast::hash`: the IEEE-polynomial CRC-32 of the input,
/// depending on the input bytes alone.
#[verifier::external_body]
fn crc32(data: &[u8]) -> (r: u32)
    ensures
        r == crc32_of(data@),
{
    crc32fast::hash(data)
}

/// The 14 header bytes for a header value.
pub open spec fn enc_header(h: FrameHeader) -> Seq<u8> {
    h.magic@ + seq![h.version, h.flags] + spec_u32_to_le_bytes(h.length) + spec_u32_to_le_bytes(
        h.checksum,
    )
}

/// The header that framing writes for a payload.
pub open spec fn header_for(payload: Seq<u8>) -> FrameHeader {
    FrameHeader {
        magic: [0x41u8, 0x54u8, 0x4Fu8, 0x4Du8],
        version: PROTOCOL_VERSION,
        flags: 0,
        length: payload.len() as u32,
        checksum: crc32_of(payload),
    }
}

/// A whole frame: header bytes followed by the payload.
pub open spec fn frame_bytes(payload: Seq<u8>) -> Seq<u8> {
    enc_header(header_for(payload)) + payload
}

/// Whether 14 header bytes pass the structural checks against a cap.
pub open spec fn header_ok(h: FrameHeader, max_message_size: u32) -> bool {
    &&& h.magic@ == magic_bytes()
    &&& h.version == PROTOCOL_VERSION
    &&& h.length <= max_message_size
}

/// Serializes a frame header into its 14-byte wire form.
pub fn encode_header(h: &FrameHeader) -> (r: Vec<u8>)
    ensures
        r@ == enc_header(*h),
        r@.len() == 14,
{
    proof {
        lemma_auto_spec_u32_to_from_le_bytes();
    }
    let mut out: Vec<u8> = Vec::new();
    out.push(h.magic[0]);
    out.push(h.magic[1]);
    out.push(h.magic[2]);
    out.push(h.magic[3]);
    out.push(h.version);
    out.push(h.flags);
    let mut len_bytes = u32_to_le_bytes(h.length);
    out.append(&mut len_bytes);
    let mut sum_bytes = u32_to_le_bytes(h.checksum);
    out.append(&mut sum_bytes);
    proof {
        assert(h.magic@ =~= seq![h.magic@[0], h.magic@[1], h.magic@[2], h.magic@[3]]);
        assert(out@ =~= enc_header(*h));
    }
    out
}

/// Reads a frame header back from its 14-byte wire form.
pub fn parse_frame_header(h: &[u8]) -> (r: FrameHeader)
    requires
        h@.len() == 14,
    ensures
        enc_header(r) == h@,
{
    proof {
        lemma_auto_spec_u32_to_from_le_bytes();
    }
    let magic = [h[0], h[1], h[2], h[3]];
    let version = h[4];
    let flags = h[5];
    let length = u32_from_le_bytes(slice_subrange(h, 6, 10));
    let checksum = u32_from_le_bytes(slice_subrange(h, 10, 14));
    let r = FrameHeader { magic, version, flags, length, checksum };
    proof {
        assert(enc_header(r) =~= h@);
    }
    r
}

/// Validates a received header: magic, protocol version, and the size cap.
/// Returns the exact `InvalidFrame` error the protocol prescribes for each
/// violation, checked in that order.
pub fn check_header(h: &FrameHeader, max_message_size: u32) -> (r: Result<(), IpcError>)
    ensures
        h.magic@ != magic_bytes() ==> (r matches Err(e) && e matches IpcError::InvalidFrame(m)
            && m@ == "Invalid magic bytes"@),
        h.magic@ == magic_bytes() && h.version != PROTOCOL_VERSION ==> (r matches Err(e)
            && e matches IpcError::InvalidFrame(m) && m@ == "Unsupported protocol version"@),
        h.magic@ == magic_bytes() && h.version == PROTOCOL_VERSION && h.length > max_message_size
            ==> (r matches Err(e) && e matches IpcError::InvalidFrame(m) && m@
            == "Message too large"@),
        r is Ok <==> header_ok(*h, max_message_size),
{
    proof {
        assert(h.magic@ =~= seq![h.magic@[0], h.magic@[1], h.magic@[2], h.magic@[3]]);
    }
    if !(h.magic[0] == 0x41 && h.magic[1] == 0x54 && h.magic[2] == 0x4F && h.magic[3] == 0x4D) {
        proof {
            assert(h.magic@ != magic_bytes());
        }
        Err(IpcError::InvalidFrame("Invalid magic bytes".to_owned()))
    } else if h.version != PROTOCOL_VERSION {
        Err(IpcError::InvalidFrame("Unsupported protocol version".to_owned()))
    } else if h.length > max_message_size {
        Err(IpcError::InvalidFrame("Message too large".to_owned()))
    } else {
        Ok(())
    }
}

/// Validates the payload of a frame against its header's checksum, then
/// deserializes the envelope. A checksum mismatch and an undecodable
/// payload each yield the prescribed `InvalidFrame` error.
pub fn decode_frame_payload(header: &FrameHeader, payload: &[u8]) -> (r: Result<
    IpcMessage,
    IpcError,
>)
    ensures
        header.checksum != crc32_of(payload@) ==> (r matches Err(e) && e matches
            IpcError::InvalidFrame(m) && m@ == "Checksum mismatch"@),
        header.checksum == crc32_of(payload@) ==> match dec_msg_s(payload@, 0) {
            Some(vp) => if vp.1 == payload@.len() {
                r matches Ok(msg) && msg.deep_view() == vp.0
            } else {
                r matches Err(e) && e matches IpcError::InvalidFrame(m) && m@
                    == "Invalid payload"@
            },
            None => r matches Err(e) && e matches IpcError::InvalidFrame(m) && m@
                == "Invalid payload"@,
        },
{
    let actual = crc32(payload);
    if actual != header.checksum {
        return Err(IpcError::InvalidFrame("Checksum mismatch".to_owned()));
    }
    match decode_message(payload) {
        Some(msg) => Ok(msg),
        None => Err(IpcError::InvalidFrame("Invalid payload".to_owned())),
    }
}

/// Serializes an envelope and frames it: header then payload, as one byte
/// vector. Fails with `InvalidFrame("Message too large")` exactly when the
/// encoded payload exceeds the cap; no bytes are to be emitted then.
pub fn encode_frame(msg: &IpcMessage, max_message_size: u32) -> (r: Result<Vec<u8>, IpcError>)
    ensures
        enc_msg(msg.deep_view()).len() > max_message_size ==> (r matches Err(e) && e matches
            IpcError::InvalidFrame(m) && m@ == "Message too large"@),
        enc_msg(msg.deep_view()).len() <= max_message_size ==> (r matches Ok(b) && b@
            == frame_bytes(enc_msg(msg.deep_view()))),
        r is Ok <==> enc_msg(msg.deep_view()).len() <= max_message_size,
{
    let mut payload = encode_message(msg);
    if payload.len() > max_message_size as usize {
        return Err(IpcError::InvalidFrame("Message too large".to_owned()));
    }
    let checksum = crc32(payload.as_slice());
    let header = FrameHeader {
        magic: [0x41, 0x54, 0x4F, 0x4D],
        version: PROTOCOL_VERSION,
        flags: 0,
        length: payload.len() as u32,
        checksum,
    };
    let mut out = encode_header(&header);
    out.append(&mut payload);
    proof {
        assert(header == header_for(enc_msg(msg.deep_view())));
        assert(out@ =~= frame_bytes(enc_msg(msg.deep_view())));
    }
    Ok(out)
}

/// Round-trip law of the frame layer: for every well-formed envelope whose
/// encoding fits the cap, the written frame opens with a header that passes
/// validation against that cap, carries the payload's checksum, and its
/// payload decodes back to the envelope, consuming every payload byte.
pub proof fn lemma_frame_round_trip(m: IpcMessageView, max_message_size: u32)
    requires
        wf_msg(m),
        enc_msg(m).len() <= max_message_size,
    ensures
        ({
            let p = enc_msg(m);
            let b = frame_bytes(p);
            &&& b.len() == 14 + p.len()
            &&& b.subrange(0, 14) == enc_header(header_for(p))
            &&& b.subrange(14, b.len() as int) == p
            &&& header_ok(header_for(p), max_message_size)
            &&& header_for(p).checksum == crc32_of(p)
            &&& dec_msg_s(p, 0) == Some((m, p.len() as int))
        }),
{
    lemma_auto_spec_u32_to_from_le_bytes();
    let p = enc_msg(m);
    let b = frame_bytes(p);
    assert(header_for(p).magic@ =~= magic_bytes());
    assert(enc_header(header_for(p)).len() == 14);
    assert(b.subrange(0, 14) =~= enc_header(header_for(p)));
    assert(b.subrange(14, b.len() as int) =~= p);
    lemma_message_round_trip(m);
}

} // verus!
