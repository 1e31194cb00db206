//! The wire framing: a 4-byte little-endian length prefix followed by exactly
//! that many payload bytes.

use vstd::prelude::*;
use vstd::bytes::{spec_u32_from_le_bytes, spec_u32_to_le_bytes, u32_from_le_bytes, u32_to_le_bytes};

verus! {

/// Capacity of the receive buffer: a frame whose declared length exceeds this
/// is a protocol violation and the connection is abandoned.
pub const RECV_BUFFER_CAPACITY: u32 = 8192;

/// The byte sequence of a whole frame carrying `payload`.
pub open spec fn spec_frame(payload: Seq<u8>) -> Seq<u8>
    recommends
        payload.len() <= u32::MAX,
{
    spec_u32_to_le_bytes(payload.len() as u32) + payload
}

/// Reads the declared payload length out of a 4-byte prefix.
pub fn decode_frame_len(prefix: &[u8]) -> (len: u32)
    requires
        prefix@.len() == 4,
    ensures
        len == spec_u32_from_le_bytes(prefix@),
{
    u32_from_le_bytes(prefix)
}

/// Wraps a payload into a single frame: little-endian length, then the bytes.
pub fn encode_frame(payload: &Vec<u8>) -> (framed: Vec<u8>)
    requires
        payload@.len() <= u32::MAX,
    ensures
        framed@ == spec_frame(payload@),
        framed@.len() == payload@.len() + 4,
{
    proof {
        vstd::bytes::lemma_auto_spec_u32_to_from_le_bytes();
    }
    let mut framed = u32_to_le_bytes(payload.len() as u32);
    let mut i: usize = 0;
    while i < payload.len()
        invariant
            i <= payload@.len(),
            payload@.len() <= u32::MAX,
            framed@ == spec_u32_to_le_bytes(payload@.len() as u32) + payload@.subrange(0, i as int),
        decreases payload@.len() - i,
    {
        framed.push(payload[i]);
        i = i + 1;
        proof {
            assert(payload@.subrange(0, i as int)
                == payload@.subrange(0, i as int - 1).push(payload@[i as int - 1]));
        }
    }
    proof {
        assert(payload@.subrange(0, payload@.len() as int) == payload@);
    }
    framed
}

} // verus!
