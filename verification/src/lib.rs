//! A verified core for exposing heavy native objects (model pipelines) to a
//! foreign caller across a boundary that can only pass scalar integers and
//! raw byte buffers.
//!
//! The crate provides the opaque resource-handle allocator ([`table`]), the
//! tagged model layer ([`models`]), the result/error channel ([`channel`]),
//! and the uniform scalar call convention ([`exec`]). The model pipelines
//! themselves are external collaborators: a host crate creates them, stores
//! them behind handles, and routes every outcome through these verified
//! entry points.

use vstd::prelude::*;

pub mod channel;
pub mod context;
pub mod errors;
pub mod json;
pub mod language;
pub mod models;
pub mod requests;
pub mod table;

use crate::channel::Channel;
use crate::errors::BertError;

verus! {

/// What storing a result guarantees: the result slot holds exactly the
/// payload, the error slot is untouched, and the payload's byte length is
/// returned.
pub open spec fn set_result_post(pre: Channel, payload: Seq<u8>, post: Channel, n: usize) -> bool {
    &&& post.result@ == payload
    &&& post.error@ == pre.error@
    &&& n == payload.len()
}

/// What the call wrapper guarantees: a success passes its scalar through
/// with the channel untouched; a failure stores the error's message bytes in
/// the error slot, leaves the result slot alone, and returns `-1`.
pub open spec fn exec_post(
    pre: Channel,
    outcome: Result<isize, BertError>,
    post: Channel,
    code: isize,
) -> bool {
    match outcome {
        Ok(a) => code == a && post == pre,
        Err(e) => code == -1 && post.error@ == e.message() && post.result@ == pre.result@,
    }
}

/// Store a successful operation's payload in the channel's result slot and
/// return its byte length, which the boundary call reports as its scalar
/// result.
pub fn set_result(channel: &mut Channel, v: Vec<u8>) -> (n: usize)
    ensures
        set_result_post(*old(channel), v@, *final(channel), n),
{
    let n = v.len();
    channel.result = v;
    n
}

/// Adapt a fallible operation's outcome to the boundary's all-scalar
/// convention: a success passes its non-negative scalar through unchanged; a
/// failure stores the error's message bytes in the error slot and returns the
/// sentinel `-1`.
pub fn exec(channel: &mut Channel, outcome: Result<isize, BertError>) -> (code: isize)
    ensures
        exec_post(*old(channel), outcome, *final(channel), code),
{
    match outcome {
        Ok(a) => a,
        Err(e) => {
            channel.error = e.render();
            -1
        },
    }
}

/// Result single-read: composing the contracts of `set_result` and
/// `fill_result`, an operation that stores a payload of `N` bytes returns
/// `N`; one drain with a buffer of that length yields exactly those bytes
/// and empties the slot; a second drain before any new store yields an empty
/// buffer.
pub proof fn lemma_result_single_read(
    c0: Channel,
    payload: Seq<u8>,
    c1: Channel,
    n: usize,
    c2: Channel,
    b1: Seq<u8>,
    c3: Channel,
    b2: Seq<u8>,
)
    requires
        set_result_post(c0, payload, c1, n),
        channel::fill_result_post(c1, c2, b1),
        channel::fill_result_post(c2, c3, b2),
    ensures
        n == payload.len(),
        b1 == payload,
        b2 == Seq::<u8>::empty(),
{
}

/// Error round-trip: composing the contracts of `exec`, `error_len` and
/// `fill_error`, a failing operation returns `-1` and leaves its message in
/// the error slot, so the length query reports the message's byte length;
/// the drain returns exactly the message; and a following length query
/// reports zero.
pub proof fn lemma_error_round_trip(
    c0: Channel,
    e: BertError,
    c1: Channel,
    code: isize,
    c2: Channel,
    b: Seq<u8>,
)
    requires
        exec_post(c0, Err(e), c1, code),
        channel::fill_error_post(c1, c2, b),
    ensures
        code == -1,
        c1.error@.len() == e.message().len(),
        b == e.message(),
        c2.error@.len() == 0,
{
}

} // verus!
