//! The tick counter behind every [`Instant`](crate::Instant).

use vstd::prelude::*;

verus! {

/// The counter after one reading: one more than before, or unchanged once it
/// has reached the largest 64-bit value.
pub open spec fn next_tick(ticks: nat) -> nat {
    if ticks < u64::MAX {
        ticks + 1
    } else {
        ticks
    }
}

/// The counter after `readings` successive readings, which is also the tick
/// that the last of them returns.
pub open spec fn tick_after(ticks: nat, readings: nat) -> nat
    decreases readings,
{
    if readings == 0 {
        ticks
    } else {
        next_tick(tick_after(ticks, (readings - 1) as nat))
    }
}

/// A source of ticks that depends only on how often it has been read.
///
/// A reading borrows the clock mutably, so two readings of one clock never
/// overlap; threads that share a clock keep it behind a lock.
///
/// The counter saturates: once it holds `u64::MAX`, a reading returns
/// `u64::MAX` again and leaves it there. Below that value every reading
/// returns a tick that no earlier reading of the same clock returned.
#[derive(Debug)]
pub struct Clock {
    ticks: u64,
}

impl View for Clock {
    type V = nat;

    /// The tick that the latest reading returned, or the starting value
    /// before the first reading.
    closed spec fn view(&self) -> nat {
        self.ticks as nat
    }
}

impl Clock {
    /// A clock that has not been read yet: its first reading returns tick 1.
    pub fn new() -> (r: Clock)
        ensures
            r@ == 0,
    {
        Clock { ticks: 0 }
    }

    /// A clock whose counter holds `ticks`.
    pub fn starting_at(ticks: u64) -> (r: Clock)
        ensures
            r@ == ticks,
    {
        Clock { ticks }
    }

    /// The counter as it stands, without reading the clock.
    pub fn ticks(&self) -> (r: u64)
        ensures
            r == self@,
    {
        self.ticks
    }

    /// Reads the clock: moves the counter one step and returns its new value.
    pub fn advance(&mut self) -> (r: u64)
        ensures
            final(self)@ == next_tick(old(self)@),
            r == final(self)@,
    {
        if self.ticks < u64::MAX {
            self.ticks = self.ticks + 1;
        }
        self.ticks
    }
}

/// A clock's counter always fits in 64 bits.
pub proof fn lemma_counter_is_bounded(clock: Clock)
    ensures
        clock@ <= u64::MAX,
{
}

/// Readings add up: `readings` of them move a counter that has room for them
/// by exactly `readings`, and a counter that has less room to `u64::MAX`.
pub proof fn lemma_tick_after_closed_form(ticks: nat, readings: nat)
    requires
        ticks <= u64::MAX,
    ensures
        tick_after(ticks, readings) == if ticks + readings <= u64::MAX {
            ticks + readings
        } else {
            u64::MAX as nat
        },
    decreases readings,
{
    if readings > 0 {
        lemma_tick_after_closed_form(ticks, (readings - 1) as nat);
    }
}

/// Reading once and then `readings` more times is reading `readings + 1`
/// times.
pub proof fn lemma_tick_after_one_more(ticks: nat, readings: nat)
    requires
        ticks <= u64::MAX,
    ensures
        tick_after(next_tick(ticks), readings) == tick_after(ticks, readings + 1),
{
    lemma_tick_after_closed_form(ticks, readings + 1);
    lemma_tick_after_closed_form(next_tick(ticks), readings);
}

/// Monotonicity: of any run of readings of one clock, a later reading returns
/// a strictly greater tick than an earlier one, as long as the counter has
/// room for the later one. No tick is handed out twice.
pub proof fn lemma_readings_strictly_increase(ticks: nat, earlier: nat, later: nat)
    requires
        earlier < later,
        ticks + later <= u64::MAX,
    ensures
        tick_after(ticks, earlier) < tick_after(ticks, later),
{
    lemma_tick_after_closed_form(ticks, earlier);
    lemma_tick_after_closed_form(ticks, later);
}

/// The counter never goes back, whether it has saturated or not.
pub proof fn lemma_readings_never_decrease(ticks: nat, earlier: nat, later: nat)
    requires
        ticks <= u64::MAX,
        earlier <= later,
    ensures
        tick_after(ticks, earlier) <= tick_after(ticks, later),
{
    lemma_tick_after_closed_form(ticks, earlier);
    lemma_tick_after_closed_form(ticks, later);
}

} // verus!
