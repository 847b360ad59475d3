//! Higher level interfaces to the capability primitives of a seL4-style
//! microkernel: addressing capability slots inside guarded radix-tree
//! capability tables, creating kernel objects in bulk from untyped memory,
//! and decoding the structured failure information the kernel leaves in the
//! shared message buffer.
//!
//! Everything here is pure mechanism on plain values: the system calls
//! themselves, which only a kernel can answer, live outside this crate and
//! hand their raw words in and out of these types.

use vstd::prelude::*;

mod cspace;
mod endpoint;
mod error;
mod retype;

pub use cspace::{Badge, CNode, CNodeInfo, DecodedCPtr, SlotRef, Window, WORD_BITS};
pub use endpoint::{check_message_limits, RecvToken, MSG_MAX_EXTRA_CAPS, MSG_MAX_LENGTH};
pub use error::{ErrorDetails, IpcBuffer, LookupFailureKind, spec_buffer_details};
pub use retype::{
    apply_statuses, batch_calls, lemma_batch_shape, lemma_partial_failure, spec_batch_count,
    spec_batch_covers, spec_batch_offset, spec_call, spec_created_by_first, spec_num_batches,
    RetypeCall, RetypeRequest, RetypeRun,
};
pub use error::{
    LABEL_ALIGNMENT_ERROR, LABEL_DELETE_FIRST, LABEL_FAILED_LOOKUP, LABEL_ILLEGAL_OPERATION,
    LABEL_INVALID_ARGUMENT, LABEL_INVALID_CAPABILITY, LABEL_NOT_ENOUGH_MEMORY, LABEL_NO_ERROR,
    LABEL_RANGE_ERROR, LABEL_REVOKE_FIRST, LABEL_TRUNCATED_MESSAGE, LOOKUP_DEPTH_MISMATCH,
    LOOKUP_GUARD_MISMATCH, LOOKUP_INVALID_ROOT, LOOKUP_MISSING_CAPABILITY, LOOKUP_NO_FAILURE,
};
pub use cspace::{
    lemma_badge_round_trip, lemma_decode_encode, lemma_encode_decode, lemma_window_slot_fields,
    low_mask, shl_word, shr_word,
};

verus! {

/// Most objects one bulk-creation call may produce; a request for more
/// slots is split into several calls.
pub const CONFIG_RETYPE_FAN_OUT_LIMIT: usize = 256;

/// Objects that wrap a raw capability pointer.
pub trait ToCap {
    /// The raw capability pointer this object wraps.
    spec fn spec_cap(&self) -> u64;

    /// Unwrap this object into its raw capability pointer.
    fn to_cap(&self) -> (c: u64)
        ensures
            c == self.spec_cap(),
    ;
}

impl ToCap for u64 {
    closed spec fn spec_cap(&self) -> u64 {
        *self
    }

    fn to_cap(&self) -> (c: u64) {
        *self
    }
}

/// An error occurred while invoking a capability.
///
/// The kernel stores error information in the shared message buffer, and
/// copying that data is not free; to inspect the details of the error, pass
/// the buffer contents to [`Error::details`].
#[derive(Debug, Copy, Clone, PartialEq, Eq, Structural)]
pub struct Error(pub GoOn);

/// Where the details of an [`Error`] are to be found.
#[derive(Debug, Copy, Clone, PartialEq, Eq, Structural)]
pub enum GoOn {
    /// The kernel reported failure; the shared message buffer holds the details.
    CheckIPCBuf,
    /// Locally detected before any call: more data than fits in one message.
    TooMuchData,
    /// Locally detected before any call: more capabilities than fit in one message.
    TooManyCaps,
}

} // verus!
