//! State Encoder: builds the fixed-width payloads injected into the
//! subprocess's input stream.
//!
//! Two payload shapes exist, one per deployment mode.  Acknowledgement mode
//! answers every poll request with a fixed 30-byte pulse of the sentinel
//! byte, whether or not a controller was present.  Streaming mode answers
//! every acknowledgement signal with the current shared state as a 4-byte
//! little-endian integer followed by one line-terminator byte.  Encoding
//! never fails.

use vstd::prelude::*;

use crate::sdl::GameController;

verus! {

/// The sentinel byte of the acknowledgement-mode payload.
pub open spec fn sentinel_byte() -> u8 {
    0xff
}

/// Length of the acknowledgement-mode payload.
pub open spec fn ack_payload_len() -> int {
    30
}

/// The acknowledgement-mode payload: the sentinel byte, thirty times.
pub open spec fn ack_payload() -> Seq<u8> {
    Seq::new(ack_payload_len() as nat, |i: int| sentinel_byte())
}

/// The streaming-mode payload for shared state `state`: its four bytes in
/// little-endian order, then the line terminator.
pub open spec fn stream_payload(state: u32) -> Seq<u8> {
    seq![
        (state & 0xff) as u8,
        ((state >> 8) & 0xff) as u8,
        ((state >> 16) & 0xff) as u8,
        ((state >> 24) & 0xff) as u8,
        10u8,
    ]
}

/// Encodes the acknowledgement-mode payload for one resolved request.  The
/// payload is the same fixed 30-byte pulse whether a controller is present
/// (`Some`) or absent (`None`): it acknowledges that a response was
/// produced, decoupled from real state capture.
pub fn encode(controller: Option<&GameController>) -> (r: Vec<u8>)
    ensures
        r@ == ack_payload(),
        r@.len() == ack_payload_len(),
        forall|i: int| 0 <= i < r@.len() ==> r@[i] == sentinel_byte(),
{
    let mut payload: Vec<u8> = Vec::new();
    while payload.len() < 30
        invariant
            payload@.len() <= 30,
            forall|i: int| 0 <= i < payload@.len() ==> payload@[i] == sentinel_byte(),
        decreases 30 - payload.len(),
    {
        payload.push(0xff);
    }
    proof {
        assert(payload@ =~= ack_payload());
    }
    payload
}

/// Encodes the streaming-mode payload: the shared state handed in, exactly
/// as captured, as four little-endian bytes plus the line terminator.
pub fn encode_stream(state: u32) -> (r: Vec<u8>)
    ensures
        r@ == stream_payload(state),
{
    let mut payload: Vec<u8> = Vec::new();
    payload.push((state & 0xff) as u8);
    payload.push(((state >> 8) & 0xff) as u8);
    payload.push(((state >> 16) & 0xff) as u8);
    payload.push(((state >> 24) & 0xff) as u8);
    payload.push(10);
    proof {
        assert(payload@ =~= stream_payload(state));
    }
    payload
}

} // verus!
