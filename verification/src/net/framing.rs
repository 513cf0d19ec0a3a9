//! Wire framing: each envelope travels as a 4-byte big-endian length
//! followed by that many bytes of JSON. Reading and writing the stream, and
//! the JSON itself, belong to the caller.

use vstd::prelude::*;

use crate::error::{ChattorError, Result};
use crate::protocol::message::{MessageEnvelope, PROTOCOL_VERSION};
use crate::text::{decimal, push_decimal, str_to_string};

verus! {

/// Largest payload accepted in either direction, in bytes.
pub const MAX_MESSAGE_SIZE: usize = 10_000_000;

/// The big-endian value of four bytes.
pub open spec fn be_u32(b: Seq<u8>) -> u32 {
    ((b[0] as u32) << 24u32) | ((b[1] as u32) << 16u32) | ((b[2] as u32) << 8u32) | (b[3] as u32)
}

/// The four big-endian bytes of a value.
pub open spec fn be_bytes(n: u32) -> Seq<u8> {
    seq![(n >> 24u32) as u8, (n >> 16u32) as u8, (n >> 8u32) as u8, n as u8]
}

/// `e` is a `Network` error whose message is `msg`.
pub open spec fn is_network_error(e: ChattorError, msg: Seq<char>) -> bool {
    e matches ChattorError::Network(s) && s@ == msg
}

proof fn lemma_be_roundtrip(n: u32)
    ensures
        be_u32(be_bytes(n)) == n,
{
    let b0 = (n >> 24u32) as u8;
    let b1 = (n >> 16u32) as u8;
    let b2 = (n >> 8u32) as u8;
    let b3 = n as u8;
    assert(((b0 as u32) << 24u32) | ((b1 as u32) << 16u32) | ((b2 as u32) << 8u32) | (b3 as u32) == n) by (bit_vector)
        requires
            b0 == (n >> 24u32) as u8,
            b1 == (n >> 16u32) as u8,
            b2 == (n >> 8u32) as u8,
            b3 == n as u8,
    ;
}

/// Frame a serialized envelope: its length as four big-endian bytes, then
/// the bytes themselves. Payloads over the size limit are refused.
pub fn encode_frame(json: &[u8]) -> (r: Result<Vec<u8>>)
    ensures
        json@.len() > MAX_MESSAGE_SIZE ==> (r matches Err(e) && is_network_error(e, "Message too large"@)),
        json@.len() <= MAX_MESSAGE_SIZE ==> (r matches Ok(f) && f@ == be_bytes(json@.len() as u32) + json@),
{
    if json.len() > MAX_MESSAGE_SIZE {
        return Err(ChattorError::Network(str_to_string("Message too large")));
    }
    let n = json.len() as u32;
    let mut frame: Vec<u8> = Vec::new();
    frame.push((n >> 24) as u8);
    frame.push((n >> 16) as u8);
    frame.push((n >> 8) as u8);
    frame.push(n as u8);
    let mut i: usize = 0;
    while i < json.len()
        invariant
            i <= json@.len(),
            frame@ == be_bytes(n) + json@.take(i as int),
        decreases json@.len() - i,
    {
        frame.push(json[i]);
        i = i + 1;
        assert(frame@ =~= be_bytes(n) + json@.take(i as int));
    }
    assert(json@.take(json@.len() as int) =~= json@);
    Ok(frame)
}

/// The payload length announced by a frame's 4-byte prefix. Lengths over
/// the size limit are refused.
pub fn frame_payload_len(prefix: [u8; 4]) -> (r: Result<usize>)
    ensures
        be_u32(prefix@) > MAX_MESSAGE_SIZE ==> (r matches Err(e) && is_network_error(e, "Message too large"@)),
        be_u32(prefix@) <= MAX_MESSAGE_SIZE ==> r == Ok::<usize, ChattorError>(be_u32(prefix@) as usize),
{
    let n: u32 = ((prefix[0] as u32) << 24) | ((prefix[1] as u32) << 16) | ((prefix[2] as u32) << 8) | (prefix[3] as u32);
    let len = n as usize;
    if len > MAX_MESSAGE_SIZE {
        return Err(ChattorError::Network(str_to_string("Message too large")));
    }
    Ok(len)
}

/// The message that refuses an envelope of another protocol version.
pub open spec fn version_message(v: u8) -> Seq<char> {
    "Unsupported protocol version "@ + decimal(v as nat) + " (expected "@ + decimal(PROTOCOL_VERSION as nat) + ")"@
}

/// Accept a received envelope only if it speaks the current protocol version.
pub fn check_version(envelope: MessageEnvelope) -> (r: Result<MessageEnvelope>)
    ensures
        envelope.version == PROTOCOL_VERSION ==> r == Ok::<MessageEnvelope, ChattorError>(envelope),
        envelope.version != PROTOCOL_VERSION ==> (r matches Err(e) && is_network_error(e, version_message(envelope.version))),
{
    if envelope.version != PROTOCOL_VERSION {
        let mut m = str_to_string("Unsupported protocol version ");
        push_decimal(&mut m, envelope.version as u64);
        m.append(" (expected ");
        push_decimal(&mut m, PROTOCOL_VERSION as u64);
        m.append(")");
        return Err(ChattorError::Network(m));
    }
    Ok(envelope)
}

/// A frame that was written reads back: its prefix announces exactly the
/// payload that follows it.
pub proof fn lemma_frame_roundtrip(json: Seq<u8>)
    requires
        json.len() <= MAX_MESSAGE_SIZE,
    ensures
        be_u32((be_bytes(json.len() as u32) + json).take(4)) == json.len(),
        (be_bytes(json.len() as u32) + json).skip(4) == json,
{
    let f = be_bytes(json.len() as u32) + json;
    assert(f.take(4) =~= be_bytes(json.len() as u32));
    assert(f.skip(4) =~= json);
    lemma_be_roundtrip(json.len() as u32);
}

} // verus!
