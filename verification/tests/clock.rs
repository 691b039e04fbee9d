use timeless::{Clock, Instant};

#[test]
fn a_new_clock_stands_at_zero() {
    let clock = Clock::new();
    assert_eq!(clock.ticks(), 0);
}

#[test]
fn a_clock_starts_where_it_is_told() {
    assert_eq!(Clock::starting_at(41).ticks(), 41);
    assert_eq!(Clock::starting_at(u64::MAX).ticks(), u64::MAX);
}

#[test]
fn advance_moves_one_tick_and_returns_it() {
    let mut clock = Clock::starting_at(41);
    assert_eq!(clock.advance(), 42);
    assert_eq!(clock.ticks(), 42);
    assert_eq!(clock.advance(), 43);
    assert_eq!(clock.ticks(), 43);
}

#[test]
fn every_reading_moves_the_counter_once() {
    let mut clock = Clock::new();
    for expected in 1..=50u64 {
        let t = Instant::now(&mut clock);
        assert_eq!(t.micros, expected);
        assert_eq!(clock.ticks(), expected);
    }
}

#[test]
fn the_counter_saturates_at_the_last_tick() {
    let mut clock = Clock::starting_at(u64::MAX - 1);
    assert_eq!(Instant::now(&mut clock).micros, u64::MAX);
    assert_eq!(Instant::now(&mut clock).micros, u64::MAX);
    assert_eq!(clock.advance(), u64::MAX);
    assert_eq!(clock.ticks(), u64::MAX);
}

#[test]
fn two_clocks_do_not_share_a_counter() {
    let mut one = Clock::new();
    let mut other = Clock::new();
    assert_eq!(Instant::now(&mut one).micros, 1);
    assert_eq!(Instant::now(&mut one).micros, 2);
    assert_eq!(Instant::now(&mut other).micros, 1);
    assert_eq!(one.ticks(), 2);
    assert_eq!(other.ticks(), 1);
}
