use std::collections::HashSet;

use timeless::Duration;

#[test]
fn from_micros_keeps_the_tick_count() {
    assert_eq!(Duration::from_micros(0).as_micros(), 0);
    assert_eq!(Duration::from_micros(42).as_micros(), 42);
    assert_eq!(Duration::from_micros(u64::MAX).as_micros(), u64::MAX);
    assert_eq!(Duration::from_micros(7).micros, 7);
}

#[test]
fn zero_is_the_empty_span() {
    assert_eq!(Duration::zero().as_micros(), 0);
    assert_eq!(Duration::zero(), Duration::from_micros(0));
    assert_eq!(Duration::default(), Duration::zero());
}

#[test]
fn checked_add_gives_the_sum() {
    let five = Duration::from_micros(5);
    let three = Duration::from_micros(3);
    assert_eq!(five.checked_add(three), Some(Duration::from_micros(8)));
    assert_eq!(three.checked_add(five), Some(Duration::from_micros(8)));
}

#[test]
fn checked_add_reaches_the_largest_span() {
    let almost = Duration::from_micros(u64::MAX - 1);
    assert_eq!(
        almost.checked_add(Duration::from_micros(1)),
        Some(Duration::from_micros(u64::MAX))
    );
}

#[test]
fn checked_add_past_the_largest_span_is_none() {
    assert_eq!(
        Duration::from_micros(u64::MAX).checked_add(Duration::from_micros(1)),
        None
    );
    assert_eq!(
        Duration::from_micros(u64::MAX).checked_add(Duration::from_micros(u64::MAX)),
        None
    );
    assert_eq!(
        Duration::from_micros(1 << 63).checked_add(Duration::from_micros(1 << 63)),
        None
    );
}

#[test]
fn checked_sub_gives_the_difference() {
    let five = Duration::from_micros(5);
    let three = Duration::from_micros(3);
    assert_eq!(five.checked_sub(three), Some(Duration::from_micros(2)));
    assert_eq!(five.checked_sub(five), Some(Duration::zero()));
}

#[test]
fn checked_sub_of_a_longer_span_is_none() {
    let five = Duration::from_micros(5);
    let three = Duration::from_micros(3);
    assert_eq!(three.checked_sub(five), None);
    assert_eq!(Duration::zero().checked_sub(Duration::from_micros(1)), None);
}

#[test]
fn zero_is_the_identity_of_checked_add_and_checked_sub() {
    for micros in [0u64, 1, 5_000_000, u64::MAX - 1, u64::MAX] {
        let d = Duration::from_micros(micros);
        assert_eq!(d.checked_add(Duration::zero()), Some(d));
        assert_eq!(d.checked_sub(Duration::zero()), Some(d));
    }
}

#[test]
fn operators_agree_with_the_checked_forms() {
    let five = Duration::from_micros(5);
    let three = Duration::from_micros(3);
    assert_eq!(Some(five + three), five.checked_add(three));
    assert_eq!(Some(five - three), five.checked_sub(three));
    assert_eq!(five + three, Duration::from_micros(8));
    assert_eq!(five - three, Duration::from_micros(2));
    let mut total = Duration::zero();
    total += five;
    total += three;
    assert_eq!(total, Duration::from_micros(8));
}

#[test]
fn durations_are_ordered_by_their_ticks() {
    let short = Duration::from_micros(3);
    let long = Duration::from_micros(5);
    assert!(short < long);
    assert!(long > short);
    assert!(short <= short);
    assert!(short >= short);
    assert!(short != long);
    assert_eq!(short.max(long), long);
    assert_eq!(short.min(long), short);
    assert_eq!(short.partial_cmp(&long), Some(short.cmp(&long)));
    assert_eq!(long.partial_cmp(&short), Some(long.cmp(&short)));
    assert_eq!(long.partial_cmp(&long), Some(long.cmp(&long)));
    let mut spans = vec![
        Duration::from_micros(9),
        Duration::from_micros(u64::MAX),
        Duration::zero(),
        Duration::from_micros(4),
    ];
    spans.sort();
    let ticks: Vec<u64> = spans.iter().map(|d| d.as_micros()).collect();
    assert_eq!(ticks, vec![0, 4, 9, u64::MAX]);
}

#[test]
fn equal_durations_hash_alike() {
    let mut seen: HashSet<Duration> = HashSet::new();
    assert!(seen.insert(Duration::from_micros(7)));
    assert!(!seen.insert(Duration::from_micros(7)));
    assert!(seen.insert(Duration::from_micros(8)));
    assert_eq!(seen.len(), 2);
}

#[test]
fn five_million_ticks_are_five_seconds() {
    let d = Duration::from_micros(5_000_000);
    assert_eq!(d.as_micros() as f64 / 1_000_000.0, 5.0);
}
