//! Points on the tick timeline.

use crate::clock::{lemma_tick_after_closed_form, next_tick, tick_after, Clock};
use crate::duration::Duration;
use core::cmp::Ordering;
use vstd::prelude::*;

verus! {

/// A point on the timeline of a [`Clock`]: the tick that one reading of the
/// clock returned, or such a tick shifted by a [`Duration`].
///
/// Equality and order are those of the tick.
#[derive(Copy, Clone, PartialEq, Eq, Structural, Ord, Debug, Hash)]
pub struct Instant {
    pub micros: u64,
}

impl View for Instant {
    type V = nat;

    /// The tick.
    open spec fn view(&self) -> nat {
        self.micros as nat
    }
}

impl Instant {
    /// The number of ticks from `self` up to tick `now`, and zero where
    /// `self` is the later of the two.
    pub open spec fn ticks_until(&self, now: nat) -> nat {
        if self@ <= now {
            (now - self@) as nat
        } else {
            0
        }
    }

    /// Reads `clock`. While the counter is below `u64::MAX` the result is
    /// one tick later than the latest reading before it, and so later than
    /// every instant that `clock` has handed out.
    pub fn now(clock: &mut Clock) -> (r: Instant)
        ensures
            final(clock)@ == next_tick(old(clock)@),
            r@ == final(clock)@,
            old(clock)@ < u64::MAX ==> r@ == old(clock)@ + 1,
    {
        Instant { micros: clock.advance() }
    }

    /// The span from `self` to a fresh reading of `clock`, which this call
    /// makes: asking twice gives two different answers. The span is empty
    /// where `self` lies ahead of that reading.
    pub fn elapsed(&self, clock: &mut Clock) -> (r: Duration)
        ensures
            final(clock)@ == next_tick(old(clock)@),
            r@ == self.ticks_until(final(clock)@),
            r@ >= Duration::zero()@,
            self@ <= old(clock)@ < u64::MAX ==> r@ == old(clock)@ - self@ + 1,
    {
        let now = Instant::now(clock);
        Duration { micros: now.micros.saturating_sub(self.micros) }
    }

    /// `self - other` where `other` is no later than `self`, and no result
    /// where it is.
    pub open spec fn spec_checked_sub_instant(&self, other: &Instant) -> Option<Duration> {
        if other@ <= self@ {
            Some(Duration { micros: (self@ - other@) as u64 })
        } else {
            None
        }
    }

    /// The span from `other` to `self`, or `None` where `other` is the later
    /// of the two: never a negative span.
    #[verifier::when_used_as_spec(spec_checked_sub_instant)]
    pub fn checked_sub_instant(&self, other: &Instant) -> (r: Option<Duration>)
        ensures
            r is Some <==> other@ <= self@,
            r matches Some(d) ==> d@ == self@ - other@,
            r == self.spec_checked_sub_instant(other),
    {
        match self.micros.checked_sub(other.micros) {
            Some(m) => Some(Duration { micros: m }),
            None => None,
        }
    }

    /// `self` moved forward by `other` where the tick fits in 64 bits, and
    /// no result where it does not.
    pub open spec fn spec_checked_add_duration(&self, other: &Duration) -> Option<Instant> {
        if self@ + other@ <= u64::MAX {
            Some(Instant { micros: (self@ + other@) as u64 })
        } else {
            None
        }
    }

    /// The instant `other` after `self`, or `None` where its tick would
    /// exceed `u64::MAX`.
    #[verifier::when_used_as_spec(spec_checked_add_duration)]
    pub fn checked_add_duration(&self, other: &Duration) -> (r: Option<Instant>)
        ensures
            r is Some <==> self@ + other@ <= u64::MAX,
            r matches Some(t) ==> t@ == self@ + other@,
            r == self.spec_checked_add_duration(other),
    {
        match self.micros.checked_add(other.micros) {
            Some(m) => Some(Instant { micros: m }),
            None => None,
        }
    }

    /// `self` moved back by `other` where the tick stays at or above zero,
    /// and no result where it does not.
    pub open spec fn spec_checked_sub_duration(&self, other: &Duration) -> Option<Instant> {
        if other@ <= self@ {
            Some(Instant { micros: (self@ - other@) as u64 })
        } else {
            None
        }
    }

    /// The instant `other` before `self`, or `None` where its tick would be
    /// negative.
    #[verifier::when_used_as_spec(spec_checked_sub_duration)]
    pub fn checked_sub_duration(&self, other: &Duration) -> (r: Option<Instant>)
        ensures
            r is Some <==> other@ <= self@,
            r matches Some(t) ==> t@ == self@ - other@,
            r == self.spec_checked_sub_duration(other),
    {
        match self.micros.checked_sub(other.micros) {
            Some(m) => Some(Instant { micros: m }),
            None => None,
        }
    }
}

impl vstd::std_specs::cmp::PartialOrdSpecImpl for Instant {
    open spec fn obeys_partial_cmp_spec() -> bool {
        true
    }

    open spec fn partial_cmp_spec(&self, other: &Instant) -> Option<Ordering> {
        if self@ < other@ {
            Some(Ordering::Less)
        } else if self@ == other@ {
            Some(Ordering::Equal)
        } else {
            Some(Ordering::Greater)
        }
    }
}

impl PartialOrd for Instant {
    /// The order of the two ticks.
    fn partial_cmp(&self, other: &Instant) -> (r: Option<Ordering>) {
        if self.micros < other.micros {
            Some(Ordering::Less)
        } else if self.micros == other.micros {
            Some(Ordering::Equal)
        } else {
            Some(Ordering::Greater)
        }
    }
}

/// Round trip: from `a` to a later or equal `b` there is a span, and whatever
/// span `checked_sub_instant` finds from `a` to `b`, added to `a`, gives `b`
/// back.
pub proof fn lemma_sub_then_add_round_trip(a: Instant, b: Instant, d: Duration)
    ensures
        a@ <= b@ ==> b.checked_sub_instant(&a) is Some,
        b.checked_sub_instant(&a) == Some(d) ==> a.checked_add_duration(&d) == Some(b),
{
}

/// Underflow guard: the span from a later instant to an earlier one does not
/// exist.
pub proof fn lemma_sub_instant_underflow(a: Instant, b: Instant)
    requires
        a@ < b@,
    ensures
        a.checked_sub_instant(&b) is None,
{
}

/// Asking one instant for its elapsed time again and again gives strictly
/// growing spans: seen from an instant `t` that is no later than the counter
/// `ticks`, a later reading lies further away than an earlier one, as long as
/// the counter has room for the later one.
pub proof fn lemma_elapsed_strictly_increases(t: Instant, ticks: nat, earlier: nat, later: nat)
    requires
        t@ <= ticks,
        earlier < later,
        ticks + later <= u64::MAX,
    ensures
        t.ticks_until(tick_after(ticks, earlier)) < t.ticks_until(tick_after(ticks, later)),
{
    lemma_tick_after_closed_form(ticks, earlier);
    lemma_tick_after_closed_form(ticks, later);
}

} // verus!
