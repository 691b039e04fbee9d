//! Spans of ticks.

use core::cmp::Ordering;
use vstd::prelude::*;
use vstd::std_specs::ops::{AddSpec, SubSpec};

verus! {

/// A non-negative span of ticks; one tick stands for one microsecond.
///
/// Equality and order are those of the tick count.
#[derive(Copy, Clone, PartialEq, Eq, Structural, Ord, Debug, Hash)]
pub struct Duration {
    pub micros: u64,
}

impl View for Duration {
    type V = nat;

    /// The number of ticks in the span.
    open spec fn view(&self) -> nat {
        self.micros as nat
    }
}

impl Duration {
    /// The span of `micros` ticks.
    pub open spec fn spec_from_micros(micros: u64) -> Duration {
        Duration { micros }
    }

    /// The span of `micros` ticks.
    #[verifier::when_used_as_spec(spec_from_micros)]
    pub fn from_micros(micros: u64) -> (r: Duration)
        ensures
            r@ == micros,
            r == Self::spec_from_micros(micros),
    {
        Duration { micros }
    }

    /// The number of ticks in the span.
    pub fn as_micros(&self) -> (r: u64)
        ensures
            r == self@,
    {
        self.micros
    }

    /// The span of no ticks.
    pub open spec fn spec_zero() -> Duration {
        Duration { micros: 0 }
    }

    /// The empty span, the identity of addition.
    #[verifier::when_used_as_spec(spec_zero)]
    pub fn zero() -> (r: Duration)
        ensures
            r@ == 0,
            r == Self::spec_zero(),
    {
        Duration { micros: 0 }
    }

    /// `self - rhs` where `rhs` is no longer than `self`, and no result where
    /// the difference would be negative.
    pub open spec fn spec_checked_sub(&self, rhs: Duration) -> Option<Duration> {
        if rhs@ <= self@ {
            Some(Duration { micros: (self@ - rhs@) as u64 })
        } else {
            None
        }
    }

    /// The difference of the two spans, or `None` where `rhs` is the longer.
    #[verifier::when_used_as_spec(spec_checked_sub)]
    pub fn checked_sub(&self, rhs: Duration) -> (r: Option<Duration>)
        ensures
            r is Some <==> rhs@ <= self@,
            r matches Some(d) ==> d@ == self@ - rhs@,
            r == self.spec_checked_sub(rhs),
    {
        match self.micros.checked_sub(rhs.micros) {
            Some(m) => Some(Duration { micros: m }),
            None => None,
        }
    }

    /// `self + rhs` where the sum fits in 64 bits, and no result where it
    /// does not.
    pub open spec fn spec_checked_add(&self, rhs: Duration) -> Option<Duration> {
        if self@ + rhs@ <= u64::MAX {
            Some(Duration { micros: (self@ + rhs@) as u64 })
        } else {
            None
        }
    }

    /// The sum of the two spans, or `None` where it exceeds `u64::MAX` ticks.
    #[verifier::when_used_as_spec(spec_checked_add)]
    pub fn checked_add(&self, rhs: Duration) -> (r: Option<Duration>)
        ensures
            r is Some <==> self@ + rhs@ <= u64::MAX,
            r matches Some(d) ==> d@ == self@ + rhs@,
            r == self.spec_checked_add(rhs),
    {
        match self.micros.checked_add(rhs.micros) {
            Some(m) => Some(Duration { micros: m }),
            None => None,
        }
    }
}

impl Default for Duration {
    /// The empty span.
    fn default() -> (r: Duration)
        ensures
            r@ == 0,
    {
        Duration { micros: 0 }
    }
}

impl vstd::std_specs::ops::AddSpecImpl for Duration {
    open spec fn obeys_add_spec() -> bool {
        true
    }

    open spec fn add_req(self, rhs: Duration) -> bool {
        self@ + rhs@ <= u64::MAX
    }

    open spec fn add_spec(self, rhs: Duration) -> Duration {
        Duration { micros: (self@ + rhs@) as u64 }
    }
}

impl core::ops::Add for Duration {
    type Output = Duration;

    /// The sum of two spans that is known to fit in 64 bits.
    fn add(self, rhs: Duration) -> (r: Duration)
        ensures
            r@ == self@ + rhs@,
    {
        Duration { micros: self.micros + rhs.micros }
    }
}

impl vstd::std_specs::ops::SubSpecImpl for Duration {
    open spec fn obeys_sub_spec() -> bool {
        true
    }

    open spec fn sub_req(self, rhs: Duration) -> bool {
        rhs@ <= self@
    }

    open spec fn sub_spec(self, rhs: Duration) -> Duration {
        Duration { micros: (self@ - rhs@) as u64 }
    }
}

impl core::ops::Sub for Duration {
    type Output = Duration;

    /// The difference of two spans of which `rhs` is known to be no longer.
    fn sub(self, rhs: Duration) -> (r: Duration)
        ensures
            r@ == self@ - rhs@,
    {
        Duration { micros: self.micros - rhs.micros }
    }
}

impl core::ops::AddAssign for Duration {
    /// Lengthens `self` by `rhs`, where the sum is known to fit in 64 bits.
    fn add_assign(&mut self, rhs: Duration)
        requires
            old(self)@ + rhs@ <= u64::MAX,
        ensures
            final(self)@ == old(self)@ + rhs@,
    {
        self.micros = self.micros + rhs.micros;
    }
}

impl vstd::std_specs::cmp::PartialOrdSpecImpl for Duration {
    open spec fn obeys_partial_cmp_spec() -> bool {
        true
    }

    open spec fn partial_cmp_spec(&self, other: &Duration) -> Option<Ordering> {
        if self@ < other@ {
            Some(Ordering::Less)
        } else if self@ == other@ {
            Some(Ordering::Equal)
        } else {
            Some(Ordering::Greater)
        }
    }
}

impl PartialOrd for Duration {
    /// The order of the two tick counts.
    fn partial_cmp(&self, other: &Duration) -> (r: Option<Ordering>) {
        if self.micros < other.micros {
            Some(Ordering::Less)
        } else if self.micros == other.micros {
            Some(Ordering::Equal)
        } else {
            Some(Ordering::Greater)
        }
    }
}

/// Identity: adding the empty span to a span, or taking it away, leaves the
/// span as it was, and both always succeed.
pub proof fn lemma_zero_is_identity(d: Duration)
    ensures
        d.checked_add(Duration::zero()) == Some(d),
        d.checked_sub(Duration::zero()) == Some(d),
{
}

/// The operators are the checked forms without the check: wherever `+` or
/// `-` may be used, it gives what `checked_add` or `checked_sub` gives.
pub proof fn lemma_operators_agree_with_checked_forms(a: Duration, b: Duration)
    ensures
        a.add_req(b) <==> a.checked_add(b) is Some,
        a.add_req(b) ==> a.checked_add(b) == Some(a.add_spec(b)),
        a.sub_req(b) <==> a.checked_sub(b) is Some,
        a.sub_req(b) ==> a.checked_sub(b) == Some(a.sub_spec(b)),
{
}

} // verus!
