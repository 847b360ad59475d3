//! Decoding the structured failure information a failing call leaves behind.
//!
//! A call returns a single status word; on failure the kernel has filled the
//! shared, fixed-layout message buffer with a label word and a handful of
//! label-specific words.  [`Error::details`] translates those plain words
//! into a typed [`ErrorDetails`] value, recursing into the nested
//! [`LookupFailureKind`] taxonomy for address-resolution failures.
//!
//! Decoding is only meaningful immediately after the failing call, on the
//! same execution context, before any other call overwrites the shared
//! buffer; the caller captures the buffer contents into an [`IpcBuffer`]
//! value and hands it in.

use vstd::prelude::*;
use vstd::pervasive::arbitrary;
use crate::{Error, GoOn};

verus! {

/// Failure label: the call succeeded and no details exist.
pub const LABEL_NO_ERROR: u64 = 0;

/// Failure label: an argument was invalid; one word says which.
pub const LABEL_INVALID_ARGUMENT: u64 = 1;

/// Failure label: a capability was invalid; one word says which.
pub const LABEL_INVALID_CAPABILITY: u64 = 2;

/// Failure label: the operation was not permitted; no further words.
pub const LABEL_ILLEGAL_OPERATION: u64 = 3;

/// Failure label: a value was out of range; two words give the bounds.
pub const LABEL_RANGE_ERROR: u64 = 4;

/// Failure label: a value was not aligned; no further words.
pub const LABEL_ALIGNMENT_ERROR: u64 = 5;

/// Failure label: an address lookup failed; the following words hold the
/// nested lookup-failure taxonomy.
pub const LABEL_FAILED_LOOKUP: u64 = 6;

/// Failure label: too few message words were provided; no further words.
pub const LABEL_TRUNCATED_MESSAGE: u64 = 7;

/// Failure label: a capability must be deleted first; no further words.
pub const LABEL_DELETE_FIRST: u64 = 8;

/// Failure label: a capability must be revoked first; no further words.
pub const LABEL_REVOKE_FIRST: u64 = 9;

/// Failure label: not enough untyped memory; one word gives the bytes
/// available.  The largest label the kernel can report.
pub const LABEL_NOT_ENOUGH_MEMORY: u64 = 10;

/// Nested lookup label: the lookup did not fail.
pub const LOOKUP_NO_FAILURE: u64 = 0;

/// Nested lookup label: the root was invalid; no further words.
pub const LOOKUP_INVALID_ROOT: u64 = 1;

/// Nested lookup label: a slot on the path was empty; one word.
pub const LOOKUP_MISSING_CAPABILITY: u64 = 2;

/// Nested lookup label: resolution stopped at the wrong depth; two words.
pub const LOOKUP_DEPTH_MISMATCH: u64 = 3;

/// Nested lookup label: a guard did not match; three words.  The largest
/// nested label the kernel can report.
pub const LOOKUP_GUARD_MISMATCH: u64 = 4;

/// The contents of one execution context's shared message buffer, captured
/// as plain words: the label of the tag word, and the message registers.
///
/// The buffer is owned by exactly one execution context and is overwritten
/// by every call that context makes, so a capture is only meaningful between
/// a failing call and the next call on the same context.
#[derive(Debug)]
pub struct IpcBuffer {
    /// The label read from the buffer's tag word.
    pub label: u64,
    /// The message registers, in order.
    pub msg: Vec<u64>,
}

impl IpcBuffer {
    /// Enough registers are present to read any known error layout: the
    /// deepest layout (a nested guard mismatch) reads registers 0 through 4.
    pub open spec fn wf(&self) -> bool {
        self.msg.len() >= 5
    }
}

/// Detailed information about an error, extracted from the message
/// registers.
#[derive(Debug, Copy, Clone, PartialEq, Eq, Structural)]
pub enum ErrorDetails {
    InvalidArgument { which: u64 },
    InvalidCapability { which: u64 },
    IllegalOperation,
    RangeError { min: u64, max: u64 },
    AlignmentError,
    FailedLookup { failed_for_source: bool, lookup_kind: LookupFailureKind },
    TruncatedMessage,
    DeleteFirst,
    RevokeFirst,
    NotEnoughMemory { bytes_available: u64 },
    TooMuchData,
    TooManyCaps,
}

/// Ways capability lookup can fail.
#[derive(Debug, Copy, Clone, PartialEq, Eq, Structural)]
pub enum LookupFailureKind {
    InvalidRoot,
    MissingCapability { bits_remaining: u64 },
    DepthMismatch { bits_remaining: u64, bits_resolved: u64 },
    GuardMismatch { bits_remaining: u64, guard: u64, guard_size: u64 },
}

impl LookupFailureKind {
    /// The nested lookup failure described by the registers: the label at
    /// `type_idx` selects the variant, whose words start at `details_idx`.
    /// Only labels the kernel can produce are described.
    pub open spec fn spec_from_regs(buf: IpcBuffer, type_idx: int, details_idx: int) -> Option<
        LookupFailureKind,
    >
        recommends
            0 <= type_idx < buf.msg.len(),
            0 <= details_idx && details_idx + 2 < buf.msg.len(),
            buf.msg[type_idx] <= LOOKUP_GUARD_MISMATCH,
    {
        let kind = buf.msg[type_idx];
        if kind == LOOKUP_NO_FAILURE {
            None
        } else if kind == LOOKUP_INVALID_ROOT {
            Some(LookupFailureKind::InvalidRoot)
        } else if kind == LOOKUP_MISSING_CAPABILITY {
            Some(LookupFailureKind::MissingCapability { bits_remaining: buf.msg[details_idx] })
        } else if kind == LOOKUP_DEPTH_MISMATCH {
            Some(
                LookupFailureKind::DepthMismatch {
                    bits_remaining: buf.msg[details_idx],
                    bits_resolved: buf.msg[details_idx + 1],
                },
            )
        } else if kind == LOOKUP_GUARD_MISMATCH {
            Some(
                LookupFailureKind::GuardMismatch {
                    bits_remaining: buf.msg[details_idx],
                    guard: buf.msg[details_idx + 1],
                    guard_size: buf.msg[details_idx + 2],
                },
            )
        } else {
            arbitrary()
        }
    }

    /// Decode a nested lookup failure from the message registers.
    ///
    /// A label outside the known taxonomy indicates kernel/library skew, a
    /// fatal contract violation; such buffers are excluded rather than
    /// guessed at.
    pub fn from_ipcbuf(buf: &IpcBuffer, type_idx: usize, details_idx: usize) -> (r: Option<
        LookupFailureKind,
    >)
        requires
            type_idx < buf.msg.len(),
            details_idx + 2 < buf.msg.len(),
            buf.msg[type_idx as int] <= LOOKUP_GUARD_MISMATCH,
        ensures
            r == LookupFailureKind::spec_from_regs(*buf, type_idx as int, details_idx as int),
    {
        let kind: u64 = buf.msg[type_idx];
        if kind == LOOKUP_NO_FAILURE {
            None
        } else if kind == LOOKUP_INVALID_ROOT {
            Some(LookupFailureKind::InvalidRoot)
        } else if kind == LOOKUP_MISSING_CAPABILITY {
            Some(LookupFailureKind::MissingCapability { bits_remaining: buf.msg[details_idx] })
        } else if kind == LOOKUP_DEPTH_MISMATCH {
            Some(
                LookupFailureKind::DepthMismatch {
                    bits_remaining: buf.msg[details_idx],
                    bits_resolved: buf.msg[details_idx + 1],
                },
            )
        } else {
            Some(
                LookupFailureKind::GuardMismatch {
                    bits_remaining: buf.msg[details_idx],
                    guard: buf.msg[details_idx + 1],
                    guard_size: buf.msg[details_idx + 2],
                },
            )
        }
    }
}

/// The error described by a captured buffer: the label selects the variant,
/// whose words sit at fixed register positions.  Only labels the kernel can
/// produce are described.
pub open spec fn spec_buffer_details(buf: IpcBuffer) -> Option<ErrorDetails>
    recommends
        buf.wf(),
        buf.label <= LABEL_NOT_ENOUGH_MEMORY,
{
    if buf.label == LABEL_NO_ERROR {
        None
    } else if buf.label == LABEL_INVALID_ARGUMENT {
        Some(ErrorDetails::InvalidArgument { which: buf.msg[0] })
    } else if buf.label == LABEL_INVALID_CAPABILITY {
        Some(ErrorDetails::InvalidCapability { which: buf.msg[0] })
    } else if buf.label == LABEL_ILLEGAL_OPERATION {
        Some(ErrorDetails::IllegalOperation)
    } else if buf.label == LABEL_RANGE_ERROR {
        Some(ErrorDetails::RangeError { min: buf.msg[0], max: buf.msg[1] })
    } else if buf.label == LABEL_ALIGNMENT_ERROR {
        Some(ErrorDetails::AlignmentError)
    } else if buf.label == LABEL_FAILED_LOOKUP {
        match LookupFailureKind::spec_from_regs(buf, 1, 2) {
            Some(kind) => Some(
                ErrorDetails::FailedLookup {
                    failed_for_source: buf.msg[0] == 1,
                    lookup_kind: kind,
                },
            ),
            None => None,
        }
    } else if buf.label == LABEL_TRUNCATED_MESSAGE {
        Some(ErrorDetails::TruncatedMessage)
    } else if buf.label == LABEL_DELETE_FIRST {
        Some(ErrorDetails::DeleteFirst)
    } else if buf.label == LABEL_REVOKE_FIRST {
        Some(ErrorDetails::RevokeFirst)
    } else if buf.label == LABEL_NOT_ENOUGH_MEMORY {
        Some(ErrorDetails::NotEnoughMemory { bytes_available: buf.msg[0] })
    } else {
        arbitrary()
    }
}

impl Error {
    /// The details this error decodes to, given a captured buffer: locally
    /// detected size-limit violations carry their own details, everything
    /// else comes from the buffer.
    pub open spec fn spec_details(&self, buf: IpcBuffer) -> Option<ErrorDetails> {
        match self.0 {
            GoOn::CheckIPCBuf => spec_buffer_details(buf),
            GoOn::TooMuchData => Some(ErrorDetails::TooMuchData),
            GoOn::TooManyCaps => Some(ErrorDetails::TooManyCaps),
        }
    }

    /// Decode the details of this error.
    ///
    /// `buf` must be the buffer contents captured immediately after the
    /// failing call, before any other call on the same execution context.
    /// `None` is returned only when the buffer reports success — reaching
    /// that case means no failure was pending and indicates a caller logic
    /// error.  A label outside the known taxonomy indicates kernel/library
    /// skew, a fatal contract violation; such buffers are excluded rather
    /// than guessed at.
    pub fn details(&self, buf: &IpcBuffer) -> (r: Option<ErrorDetails>)
        requires
            self.0 is CheckIPCBuf ==> {
                &&& buf.wf()
                &&& buf.label <= LABEL_NOT_ENOUGH_MEMORY
                &&& (buf.label == LABEL_FAILED_LOOKUP ==> buf.msg[1] <= LOOKUP_GUARD_MISMATCH)
            },
        ensures
            r == self.spec_details(*buf),
    {
        match self.0 {
            GoOn::TooMuchData => Some(ErrorDetails::TooMuchData),
            GoOn::TooManyCaps => Some(ErrorDetails::TooManyCaps),
            GoOn::CheckIPCBuf => {
                let label: u64 = buf.label;
                if label == LABEL_NO_ERROR {
                    None
                } else if label == LABEL_INVALID_ARGUMENT {
                    Some(ErrorDetails::InvalidArgument { which: buf.msg[0] })
                } else if label == LABEL_INVALID_CAPABILITY {
                    Some(ErrorDetails::InvalidCapability { which: buf.msg[0] })
                } else if label == LABEL_ILLEGAL_OPERATION {
                    Some(ErrorDetails::IllegalOperation)
                } else if label == LABEL_RANGE_ERROR {
                    Some(ErrorDetails::RangeError { min: buf.msg[0], max: buf.msg[1] })
                } else if label == LABEL_ALIGNMENT_ERROR {
                    Some(ErrorDetails::AlignmentError)
                } else if label == LABEL_FAILED_LOOKUP {
                    match LookupFailureKind::from_ipcbuf(buf, 1, 2) {
                        Some(kind) => Some(
                            ErrorDetails::FailedLookup {
                                failed_for_source: buf.msg[0] == 1,
                                lookup_kind: kind,
                            },
                        ),
                        None => None,
                    }
                } else if label == LABEL_TRUNCATED_MESSAGE {
                    Some(ErrorDetails::TruncatedMessage)
                } else if label == LABEL_DELETE_FIRST {
                    Some(ErrorDetails::DeleteFirst)
                } else if label == LABEL_REVOKE_FIRST {
                    Some(ErrorDetails::RevokeFirst)
                } else {
                    Some(ErrorDetails::NotEnoughMemory { bytes_available: buf.msg[0] })
                }
            },
        }
    }
}

} // verus!
