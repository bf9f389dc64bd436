//! Waiting for an operation on the calling thread, but not forever: an operation that never
//! completes must not wedge the watchdog loop.

use crate::time::{Duration, Instant};
use vstd::prelude::*;

verus! {

/// What to do about an operation that was just looked at.
#[derive(Debug, Clone, Copy, PartialEq, Eq, Structural)]
pub enum Wait {
    /// It is complete.
    Ready,
    /// It took too long.
    TimedOut,
    /// Sleep until it makes itself heard, but no longer than this, and look again.
    Sleep { at_most: Duration },
}

/// A [`Wait`] with its span of time in nanoseconds.
pub ghost enum WaitView {
    Ready,
    TimedOut,
    Sleep { at_most: nat },
}

impl View for Wait {
    type V = WaitView;

    open spec fn view(&self) -> WaitView {
        match *self {
            Wait::Ready => WaitView::Ready,
            Wait::TimedOut => WaitView::TimedOut,
            Wait::Sleep { at_most } => WaitView::Sleep { at_most: at_most@ },
        }
    }
}

/// What to do about an operation that is complete or not -- see [`wait_step`].
pub open spec fn step_at(ready: bool, now: nat, deadline: nat) -> WaitView {
    if ready {
        WaitView::Ready
    } else if now >= deadline {
        WaitView::TimedOut
    } else {
        WaitView::Sleep { at_most: (deadline - now) as nat }
    }
}

/// What to do about an operation that is complete or not, at `now`. One that is complete
/// counts even at the deadline; and being woken too early only means looking once more.
pub fn wait_step(ready: bool, now: Instant, deadline: Instant) -> (r: Wait)
    ensures
        r@ == step_at(ready, now@, deadline@),
{
    if ready {
        Wait::Ready
    } else if !now.before(&deadline) {
        Wait::TimedOut
    } else {
        Wait::Sleep { at_most: deadline.saturating_duration_since(now) }
    }
}

// --- laws ------------------------------------------------------------------------

/// An operation that is complete is never given up, and one that is not is given up at the
/// deadline and not before; until then we sleep no longer than to the deadline, so that a
/// sleeper who is not woken is up in time to give up.
pub proof fn law_an_operation_is_waited_for_until_the_deadline(
    ready: bool,
    now: nat,
    deadline: nat,
)
    ensures
        step_at(ready, now, deadline) == WaitView::Ready <==> ready,
        step_at(ready, now, deadline) == WaitView::TimedOut <==> !ready && now >= deadline,
        step_at(ready, now, deadline) matches WaitView::Sleep { at_most } ==> {
            &&& at_most > 0
            &&& now + at_most == deadline
            &&& step_at(false, now + at_most, deadline) == WaitView::TimedOut
        },
{
}

} // verus!
