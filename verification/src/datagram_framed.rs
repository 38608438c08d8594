//! The datagram codec: one buffer, one message.
//!
//! A tunnel device and a datagram socket both keep the boundaries of what
//! is written to them, so the codec adds no framing of its own. To decode is
//! to take the whole buffer; to encode is to append the whole message.

use vstd::prelude::*;
use crate::layout::push_bytes;

verus! {

/// Largest message that an interface carries unless it is configured
/// otherwise.
pub const MTU: usize = 1500;

/// The message in the bytes `raw`: all of them.
pub open spec fn spec_decode(raw: Seq<u8>) -> Seq<u8> {
    raw
}

/// The buffer `buf` after the message `msg` has been encoded into it.
pub open spec fn spec_encode(msg: Seq<u8>, buf: Seq<u8>) -> Seq<u8> {
    buf + msg
}

/// The codec. It keeps no state.
pub struct Parser;

impl Parser {
    /// Decodes the bytes `buf` of one read as one message. There is always
    /// one: nothing is kept back for a later call.
    pub fn decode(&mut self, buf: &[u8]) -> (r: Result<Option<Vec<u8>>, std::io::Error>)
        ensures
            r matches Ok(Some(msg)) && msg@ == spec_decode(buf@),
    {
        let mut msg: Vec<u8> = Vec::new();
        push_bytes(&mut msg, buf);
        Ok(Some(msg))
    }

    /// Appends the message `msg` to `buf`, as it is.
    pub fn encode(&mut self, msg: Vec<u8>, buf: &mut Vec<u8>) -> (r: Result<(), std::io::Error>)
        ensures
            r is Ok,
            final(buf)@ == spec_encode(msg@, old(buf)@),
    {
        push_bytes(buf, msg.as_slice());
        Ok(())
    }

    /// Decodes the datagram `buf` that came from the peer `src`: the peer
    /// and the whole datagram.
    pub fn decode_from<A: Copy>(&mut self, src: &A, buf: &[u8]) -> (r: Result<
        (A, Vec<u8>),
        std::io::Error,
    >)
        ensures
            r matches Ok(pair) && pair.0 == *src && pair.1@ == spec_decode(buf@),
    {
        let mut msg: Vec<u8> = Vec::new();
        push_bytes(&mut msg, buf);
        Ok((*src, msg))
    }

    /// Appends the payload of `msg` to `buf` and gives the peer it is for.
    pub fn encode_to<A>(&mut self, msg: (A, Vec<u8>), buf: &mut Vec<u8>) -> (dest: A)
        ensures
            dest == msg.0,
            final(buf)@ == spec_encode(msg.1@, old(buf)@),
    {
        let (addr, data) = msg;
        push_bytes(buf, data.as_slice());
        addr
    }
}

/// What is encoded into an empty buffer decodes to what went in: a message
/// of any content, up to the size an interface carries, comes out as it is.
pub proof fn lemma_decode_encode(payload: Seq<u8>)
    requires
        payload.len() <= MTU,
    ensures
        spec_decode(spec_encode(payload, Seq::empty())) == payload,
{
}

} // verus!
