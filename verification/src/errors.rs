//! The failure taxonomy of the boundary, and how each failure is rendered to
//! the message bytes that travel through the error channel.

use vstd::prelude::*;
use vstd::slice::slice_to_vec;

verus! {

/// A failure of a boundary operation.
///
/// Every failure is rendered to a human-readable UTF-8 message and placed in
/// the error slot of the channel before the boundary call returns `-1`.
#[derive(Debug, PartialEq, Eq)]
pub enum BertError {
    /// The handle is unknown to the table, or its entry was already removed.
    NotFound,
    /// The entry exists but its kind differs from the kind the caller expects.
    TypeMismatch,
    /// The request payload was malformed or violated the expected schema.
    Deserialization,
    /// The delegated model operation itself failed; carries its message bytes.
    Upstream { message: Vec<u8> },
    /// A prior failure while holding a lock left it permanently unusable.
    LockPoisoned,
}

impl BertError {
    /// The exact UTF-8 bytes this error renders to.
    pub open spec fn message(self) -> Seq<u8> {
        match self {
            BertError::NotFound => vstd::utf8::encode_utf8("Failed to get resource with id."@),
            BertError::TypeMismatch => vstd::utf8::encode_utf8(
                "Unexpected resource kind at resource id."@,
            ),
            BertError::Deserialization => vstd::utf8::encode_utf8(
                "Failed to parse request payload."@,
            ),
            BertError::Upstream { message } => message@,
            BertError::LockPoisoned => vstd::utf8::encode_utf8("Lock poisoned."@),
        }
    }

    /// Render this error to its message bytes.
    pub fn render(&self) -> (r: Vec<u8>)
        ensures
            r@ == self.message(),
    {
        match self {
            BertError::NotFound => slice_to_vec("Failed to get resource with id.".as_bytes()),
            BertError::TypeMismatch => slice_to_vec(
                "Unexpected resource kind at resource id.".as_bytes(),
            ),
            BertError::Deserialization => slice_to_vec(
                "Failed to parse request payload.".as_bytes(),
            ),
            BertError::Upstream { message } => slice_to_vec(message.as_slice()),
            BertError::LockPoisoned => slice_to_vec("Lock poisoned.".as_bytes()),
        }
    }
}

} // verus!
