//! Out-of-band OS notifications, mapped to messages the control loop
//! consumes with top priority.

use vstd::prelude::*;

verus! {

/// What a reconnect-style signal means to the control loop: the external
/// session is gone and must be re-established before playback resumes.
#[derive(Clone, Copy, Debug, PartialEq, Eq)]
pub enum SignalMessage {
    SessionExpired,
}

} // verus!
