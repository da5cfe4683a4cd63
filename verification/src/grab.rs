//! Grab policy: how often the pointer grab is retried, and which modifier
//! masks a key grab must cover.

use vstd::prelude::*;

verus! {

/// How many times a pointer grab is attempted before giving up.
pub const CURSOR_GRAB_TRIES: i32 = 5;

/// Since grabbing under "any modifier" is unreliable, the escape key is
/// grabbed once per modifier combination instead.  The masks for no
/// modifier up to the fifth modifier are 0, 1, 2, 4, ..., 128, so every
/// combination of them is an integer from 0 to this bound.
pub const KEY_GRAB_MASK_MAX: u16 = (128 * 2) - 1;

/// What to do after one pointer-grab attempt.
#[derive(Clone, Copy, Debug, PartialEq, Eq, Structural)]
pub enum GrabAttempt {
    /// The grab succeeded.
    Grabbed,
    /// The grab failed; wait briefly and try again.
    RetryAfterDelay,
    /// The grab failed on the last allowed attempt.
    Failed,
}

/// Decides how a pointer-grab loop goes on after attempt number `attempt`
/// (counted from zero) ended with `success`.
pub fn cursor_grab_step(attempt: i32, success: bool) -> (r: GrabAttempt)
    requires
        0 <= attempt < CURSOR_GRAB_TRIES,
    ensures
        r == (if success {
            GrabAttempt::Grabbed
        } else if attempt < CURSOR_GRAB_TRIES - 1 {
            GrabAttempt::RetryAfterDelay
        } else {
            GrabAttempt::Failed
        }),
{
    if success {
        GrabAttempt::Grabbed
    } else if attempt < CURSOR_GRAB_TRIES - 1 {
        GrabAttempt::RetryAfterDelay
    } else {
        GrabAttempt::Failed
    }
}

} // verus!
