//! The result/error channel: two single-slot byte buffers that ferry
//! variable-length output and error messages back across a boundary whose
//! call convention can only return one signed integer.
//!
//! Protocol: an operation that succeeds with a payload stores the payload's
//! bytes in the result slot and returns the byte length as the call's scalar
//! result; the caller then drains the slot with a buffer of exactly that
//! length. A failing operation stores its message in the error slot; the
//! caller queries the error length and drains it the same way. Draining moves
//! the bytes out and leaves the slot empty, so each payload can be read
//! exactly once.

use vstd::prelude::*;

verus! {

/// One result slot and one error slot.
///
/// The slots are owned by an explicit channel value rather than by process-wide
/// globals, so independent instances and deterministic tests are possible; a
/// host that shares one channel across threads must serialize boundary calls
/// itself.
pub struct Channel {
    /// The single result slot, overwritten by each successful operation.
    pub result: Vec<u8>,
    /// The single error slot, overwritten by each failed operation.
    pub error: Vec<u8>,
}

/// What draining the result slot guarantees: the caller's buffer receives
/// exactly the slot's bytes, the slot is left empty, and the error slot is
/// untouched.
pub open spec fn fill_result_post(pre: Channel, post: Channel, buf: Seq<u8>) -> bool {
    &&& buf == pre.result@
    &&& post.result@ == Seq::<u8>::empty()
    &&& post.error@ == pre.error@
}

/// What draining the error slot guarantees: the caller's buffer receives
/// exactly the slot's bytes, the slot is left empty, and the result slot is
/// untouched.
pub open spec fn fill_error_post(pre: Channel, post: Channel, buf: Seq<u8>) -> bool {
    &&& buf == pre.error@
    &&& post.error@ == Seq::<u8>::empty()
    &&& post.result@ == pre.result@
}

impl Channel {
    /// A channel with both slots empty.
    pub fn new() -> (c: Channel)
        ensures
            c.result@ == Seq::<u8>::empty(),
            c.error@ == Seq::<u8>::empty(),
    {
        Channel { result: Vec::new(), error: Vec::new() }
    }

    /// Drain the result slot into `buf`, which must have exactly the slot's
    /// length. The bytes move out: the slot is empty afterwards.
    pub fn fill_result(&mut self, buf: &mut Vec<u8>)
        requires
            old(buf)@.len() == old(self).result@.len(),
        ensures
            fill_result_post(*old(self), *final(self), final(buf)@),
    {
        buf.clear();
        buf.append(&mut self.result);
    }

    /// The current byte length of the error slot.
    pub fn error_len(&self) -> (n: usize)
        ensures
            n == self.error@.len(),
    {
        self.error.len()
    }

    /// Drain the error slot into `buf`, which must have exactly the slot's
    /// length. The bytes move out: the slot is empty afterwards.
    pub fn fill_error(&mut self, buf: &mut Vec<u8>)
        requires
            old(buf)@.len() == old(self).error@.len(),
        ensures
            fill_error_post(*old(self), *final(self), final(buf)@),
    {
        buf.clear();
        buf.append(&mut self.error);
    }
}

} // verus!
