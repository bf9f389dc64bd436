//! Spans of time and points on a monotonic clock, as the watchdog reckons with them.

use vstd::prelude::*;

verus! {

/// Nanoseconds in one second.
pub const NANOS_PER_SEC: u128 = 1_000_000_000;

/// The longest span, in nanoseconds: `u64::MAX` seconds and all but one nanosecond of
/// another.
pub const MAX_NANOS: u128 = 18_446_744_073_709_551_615_999_999_999;

/// A span of time with nanosecond resolution. Its view is its length in nanoseconds.
#[derive(Debug, Clone, Copy, PartialEq, Eq, Structural)]
pub struct Duration {
    nanos: u128,
}

impl View for Duration {
    type V = nat;

    closed spec fn view(&self) -> nat {
        self.nanos as nat
    }
}

impl Duration {
    #[verifier::type_invariant]
    spec fn well_formed(self) -> bool {
        self.nanos <= MAX_NANOS
    }

    /// A span of `secs` whole seconds.
    pub fn from_secs(secs: u64) -> (d: Duration)
        ensures
            d@ == secs * NANOS_PER_SEC,
    {
        Duration { nanos: secs as u128 * NANOS_PER_SEC }
    }

    /// A span of `secs` seconds and `nanos` nanoseconds more.
    pub fn new(secs: u64, nanos: u32) -> (d: Duration)
        requires
            nanos < NANOS_PER_SEC,
        ensures
            d@ == secs * NANOS_PER_SEC + nanos,
    {
        Duration { nanos: secs as u128 * NANOS_PER_SEC + nanos as u128 }
    }

    /// The whole seconds this span contains.
    pub fn as_secs(&self) -> (secs: u64)
        ensures
            secs as int == self@ as int / NANOS_PER_SEC as int,
    {
        proof {
            use_type_invariant(self);
        }
        (self.nanos / NANOS_PER_SEC) as u64
    }

    /// The nanoseconds this span has beyond its whole seconds.
    pub fn subsec_nanos(&self) -> (nanos: u32)
        ensures
            nanos as int == self@ as int % NANOS_PER_SEC as int,
    {
        (self.nanos % NANOS_PER_SEC) as u32
    }

    /// Is this span shorter than `other`?
    pub fn shorter_than(&self, other: &Duration) -> (r: bool)
        ensures
            r == (self@ < other@),
    {
        self.nanos < other.nanos
    }

    /// What is left of this span once `other` is taken off it; nothing if `other` is longer.
    pub fn saturating_sub(&self, other: Duration) -> (d: Duration)
        ensures
            d@ == if self@ >= other@ {
                self@ - other@
            } else {
                0
            },
    {
        proof {
            use_type_invariant(self);
        }
        if self.nanos >= other.nanos {
            Duration { nanos: self.nanos - other.nanos }
        } else {
            Duration { nanos: 0 }
        }
    }
}

/// A point on a monotonic clock. Its view is its distance from the clock's origin, in
/// nanoseconds.
#[derive(Debug, Clone, Copy, PartialEq, Eq, Structural)]
pub struct Instant {
    nanos: u128,
}

impl View for Instant {
    type V = nat;

    closed spec fn view(&self) -> nat {
        self.nanos as nat
    }
}

impl Instant {
    #[verifier::type_invariant]
    spec fn well_formed(self) -> bool {
        self.nanos <= MAX_NANOS
    }

    /// The point `since_origin` after the clock's origin.
    pub fn at(since_origin: Duration) -> (t: Instant)
        ensures
            t@ == since_origin@,
    {
        proof {
            use_type_invariant(&since_origin);
        }
        Instant { nanos: since_origin.nanos }
    }

    /// Does this point come before `other`?
    pub fn before(&self, other: &Instant) -> (r: bool)
        ensures
            r == (self@ < other@),
    {
        self.nanos < other.nanos
    }

    /// The time from `earlier` to this point; nothing if `earlier` is in fact later.
    pub fn saturating_duration_since(&self, earlier: Instant) -> (d: Duration)
        ensures
            d@ == elapsed(earlier@, self@),
    {
        proof {
            use_type_invariant(self);
        }
        if self.nanos >= earlier.nanos {
            Duration { nanos: self.nanos - earlier.nanos }
        } else {
            Duration { nanos: 0 }
        }
    }

    /// The point `span` after this one, if the clock reaches that far.
    pub fn checked_add(&self, span: Duration) -> (r: Option<Instant>)
        ensures
            match r {
                Some(t) => t@ == self@ + span@,
                None => self@ + span@ > MAX_NANOS,
            },
    {
        proof {
            use_type_invariant(self);
            use_type_invariant(&span);
        }
        let nanos: u128 = self.nanos + span.nanos;
        if nanos <= MAX_NANOS {
            Some(Instant { nanos })
        } else {
            None
        }
    }

    /// The point `span` after this one.
    pub fn plus(&self, span: Duration) -> (t: Instant)
        requires
            self@ + span@ <= MAX_NANOS,
        ensures
            t@ == self@ + span@,
    {
        Instant { nanos: self.nanos + span.nanos }
    }
}

/// The time from `earlier` to `later`, in nanoseconds; nothing if they are out of order.
pub open spec fn elapsed(earlier: nat, later: nat) -> nat {
    if later >= earlier {
        (later - earlier) as nat
    } else {
        0
    }
}

/// A span is its length: two that are equally long are the same.
pub proof fn law_a_span_is_its_length(a: Duration, b: Duration)
    requires
        a@ == b@,
    ensures
        a == b,
{
}

/// A point in time is its distance from the origin: two that are equally far are the same.
pub proof fn law_a_point_is_its_distance(a: Instant, b: Instant)
    requires
        a@ == b@,
    ensures
        a == b,
{
}

/// The time between two points leads from the earlier to the later; where the clock ran
/// backwards, none has passed.
pub proof fn law_elapsed_time_leads_from_one_point_to_the_other(a: nat, b: nat)
    ensures
        a <= b ==> a + elapsed(a, b) == b,
        a >= b ==> elapsed(a, b) == 0,
{
}

} // verus!
