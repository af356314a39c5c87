//! NUL-delimited message framing over byte streams.
//!
//! Every protocol message travels as its bytes followed by a zero byte. A
//! receiver accumulates raw chunks in a buffer and takes complete messages
//! off its front.

use vstd::prelude::*;

use crate::text::{find_index, lemma_find_index_props};

verus! {

/// Frame a message for the wire: its bytes, then the delimiter.
pub fn frame_message(msg: &Vec<u8>) -> (r: Vec<u8>)
    ensures
        r@ == msg@ + seq![0u8],
{
    let mut r = msg.clone();
    r.push(0);
    r
}

/// Append a freshly received chunk to the receive buffer.
pub fn append_chunk(buffer: &mut Vec<u8>, chunk: &Vec<u8>)
    ensures
        final(buffer)@ == old(buffer)@ + chunk@,
{
    let mut i: usize = 0;
    while i < chunk.len()
        invariant
            0 <= i <= chunk@.len(),
            buffer@ == old(buffer)@ + chunk@.take(i as int),
        decreases chunk@.len() - i,
    {
        buffer.push(chunk[i]);
        i = i + 1;
        proof {
            assert(buffer@ =~= old(buffer)@ + chunk@.take(i as int));
        }
    }
    proof {
        assert(buffer@ =~= old(buffer)@ + chunk@);
    }
}

/// Take the first complete message off the front of the buffer: everything
/// before the first delimiter, which is consumed with it. Nothing changes
/// when no delimiter has arrived yet.
pub fn extract_message(buffer: &mut Vec<u8>) -> (r: Option<Vec<u8>>)
    ensures
        match find_index(old(buffer)@, 0, 0) {
            Some(i) => r is Some && r->0@ == old(buffer)@.take(i) && final(buffer)@ == old(
                buffer,
            )@.skip(i + 1),
            None => r is None && *final(buffer) == *old(buffer),
        },
{
    let pos = match crate::text::find_byte_from(buffer, 0, 0) {
        Some(p) => p,
        None => {
            return None;
        },
    };
    proof {
        lemma_find_index_props(buffer@, 0, 0);
    }
    let len = buffer.len();
    assert(pos < len);
    let msg = crate::text::sub_bytes(buffer, 0, pos);
    let rest = crate::text::sub_bytes(buffer, pos + 1, len);
    *buffer = rest;
    proof {
        assert(msg@ =~= old(buffer)@.take(pos as int));
        assert(buffer@ =~= old(buffer)@.skip(pos + 1));
    }
    Some(msg)
}

} // verus!
