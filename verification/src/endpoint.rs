//! The computational half of message passing over rendezvous endpoints.
//!
//! Endpoints are unbuffered: send and receive block until paired, the
//! message is copied from source to destination, and both sides continue.
//! The calls themselves are the kernel's; what belongs here is everything
//! decided from plain values: the size checks a send applies before any
//! call is made, and the reading of the message information a receive
//! returns.

use vstd::prelude::*;
use crate::{Error, GoOn};

verus! {

/// Most message words one call can transfer.
pub const MSG_MAX_LENGTH: usize = 120;

/// Most capabilities one call can transfer.
pub const MSG_MAX_EXTRA_CAPS: usize = 3;

/// The locally detected size checks of a send: a message longer than
/// [`MSG_MAX_LENGTH`] words is rejected as `TooMuchData`, then one carrying
/// more than [`MSG_MAX_EXTRA_CAPS`] capabilities as `TooManyCaps`, before
/// any call is made; anything else may be handed to the kernel.
pub fn check_message_limits(data_len: usize, caps_len: usize) -> (r: Result<(), Error>)
    ensures
        r == (if data_len > MSG_MAX_LENGTH {
            Err::<(), Error>(Error(GoOn::TooMuchData))
        } else if caps_len > MSG_MAX_EXTRA_CAPS {
            Err::<(), Error>(Error(GoOn::TooManyCaps))
        } else {
            Ok::<(), Error>(())
        }),
{
    if data_len > MSG_MAX_LENGTH {
        Err(Error(GoOn::TooMuchData))
    } else if caps_len > MSG_MAX_EXTRA_CAPS {
        Err(Error(GoOn::TooManyCaps))
    } else {
        Ok(())
    }
}

/// The result of a successful receive.
///
/// Contains "sender information" — the badge of the endpoint capability
/// that was invoked to send the message — and the decoded message
/// information.
#[derive(Debug, Copy, Clone, PartialEq, Eq, Structural)]
pub struct RecvToken {
    /// The badge of the sender's endpoint capability.  Zero is the sentinel
    /// a non-blocking receive returns when no sender was waiting, so a
    /// sender relying on that mechanism must not use badge value zero.
    pub badge: u64,
    /// The label word of the received message.
    pub label: u64,
    caps_unwrapped: u64,
    len: u64,
}

impl RecvToken {
    /// The badge of the sender's endpoint capability.
    pub closed spec fn spec_badge(&self) -> u64 {
        self.badge
    }

    /// The label word of the received message.
    pub closed spec fn spec_label(&self) -> u64 {
        self.label
    }

    /// How many capabilities were unwrapped into the buffer.
    pub closed spec fn spec_caps_unwrapped(&self) -> u64 {
        self.caps_unwrapped
    }

    /// How many message words were transferred.
    pub closed spec fn spec_len(&self) -> u64 {
        self.len
    }

    /// Assemble a token from the raw sender word and the fields of the
    /// message information word a receive returned.
    pub fn from_raw(sender: u64, label: u64, caps_unwrapped: u64, length: u64) -> (r: RecvToken)
        ensures
            r.spec_badge() == sender,
            r.spec_label() == label,
            r.spec_caps_unwrapped() == caps_unwrapped,
            r.spec_len() == length,
    {
        RecvToken { badge: sender, label, caps_unwrapped, len: length }
    }

    /// Whether a message was received at all: a non-blocking receive that
    /// found no waiting sender reports the zero badge, and that sentinel is
    /// the only indication.
    pub fn message_available(&self) -> (r: bool)
        ensures
            r == (self.spec_badge() != 0),
    {
        self.badge != 0
    }

    /// A destination with room for `caps_len` capability words is large
    /// enough to read the unwrapped capabilities into.
    pub fn caps_capacity_ok(&self, caps_len: usize) -> (r: bool)
        ensures
            r == !(caps_len < MSG_MAX_EXTRA_CAPS && (caps_len as u64)
                < self.spec_caps_unwrapped()),
    {
        !(caps_len < MSG_MAX_EXTRA_CAPS && (caps_len as u64) < self.caps_unwrapped)
    }

    /// A destination with room for `data_len` message words is large enough
    /// to read the transferred data into.
    pub fn data_capacity_ok(&self, data_len: usize) -> (r: bool)
        ensures
            r == !(data_len < MSG_MAX_LENGTH && (data_len as u64) < self.spec_len()),
    {
        !(data_len < MSG_MAX_LENGTH && (data_len as u64) < self.len)
    }

    pub fn caps_unwrapped(&self) -> (r: u64)
        ensures
            r == self.spec_caps_unwrapped(),
    {
        self.caps_unwrapped
    }

    pub fn words_transferred(&self) -> (r: u64)
        ensures
            r == self.spec_len(),
    {
        self.len
    }
}

} // verus!
