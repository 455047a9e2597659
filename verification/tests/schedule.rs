use ibxrust::backoff::next_delay;
use ibxrust::delay::{nanos_of, no_longer, seconds};
use std::time::Duration;

#[test]
fn seconds_makes_whole_seconds() {
    assert_eq!(seconds(0), Duration::ZERO);
    assert_eq!(seconds(1), Duration::from_secs(1));
    assert_eq!(seconds(30), Duration::new(30, 0));
    assert_eq!(seconds(u64::MAX), Duration::from_secs(u64::MAX));
}

#[test]
fn no_longer_compares_lengths() {
    assert!(no_longer(&Duration::from_secs(1), &Duration::from_secs(2)));
    assert!(no_longer(&Duration::from_secs(2), &Duration::from_secs(2)));
    assert!(!no_longer(&Duration::from_secs(3), &Duration::from_secs(2)));
    assert!(no_longer(&Duration::new(1, 999_999_999), &Duration::from_secs(2)));
    assert!(!no_longer(&Duration::new(2, 1), &Duration::from_secs(2)));
    assert!(no_longer(&Duration::ZERO, &Duration::MAX));
    assert!(!no_longer(&Duration::MAX, &Duration::ZERO));
}

#[test]
fn next_delay_doubles_below_the_cap() {
    let cap = Duration::from_secs(30);
    assert_eq!(next_delay(Duration::from_secs(1), cap), Duration::from_secs(2));
    assert_eq!(next_delay(Duration::from_secs(2), cap), Duration::from_secs(4));
    assert_eq!(next_delay(Duration::from_secs(8), cap), Duration::from_secs(16));
    assert_eq!(next_delay(Duration::from_secs(15), cap), Duration::from_secs(30));
    assert_eq!(next_delay(Duration::ZERO, cap), Duration::ZERO);
}

#[test]
fn next_delay_stops_at_the_cap() {
    let cap = Duration::from_secs(30);
    assert_eq!(next_delay(Duration::from_secs(16), cap), cap);
    assert_eq!(next_delay(Duration::from_secs(30), cap), cap);
    assert_eq!(next_delay(Duration::from_secs(31), cap), cap);
    assert_eq!(next_delay(Duration::from_secs(20), Duration::from_secs(25)), Duration::from_secs(25));
    assert_eq!(next_delay(Duration::from_secs(5), Duration::ZERO), Duration::ZERO);
}

#[test]
fn next_delay_carries_fractions_of_a_second() {
    let cap = Duration::from_secs(30);
    assert_eq!(next_delay(Duration::from_millis(1500), cap), Duration::from_secs(3));
    assert_eq!(next_delay(Duration::new(0, 600_000_000), cap), Duration::new(1, 200_000_000));
    assert_eq!(next_delay(Duration::new(7, 999_999_999), cap), Duration::new(15, 999_999_998));
    assert_eq!(next_delay(Duration::from_nanos(1), cap), Duration::from_nanos(2));
    assert_eq!(
        next_delay(Duration::new(14, 999_999_999), Duration::new(29, 999_999_999)),
        Duration::new(29, 999_999_998)
    );
    assert_eq!(
        next_delay(Duration::new(15, 0), Duration::new(29, 999_999_999)),
        Duration::new(29, 999_999_999)
    );
}

#[test]
fn next_delay_does_not_overflow() {
    assert_eq!(next_delay(Duration::MAX, Duration::MAX), Duration::MAX);
    let half = Duration::new(u64::MAX / 2, 999_999_999);
    assert_eq!(next_delay(half, Duration::MAX), Duration::new(u64::MAX, 999_999_998));
    let over_half = Duration::new(u64::MAX / 2 + 1, 0);
    assert_eq!(next_delay(over_half, Duration::MAX), Duration::MAX);
    assert_eq!(next_delay(Duration::from_secs(u64::MAX), Duration::from_secs(3)), Duration::from_secs(3));
}

#[test]
fn schedule_from_one_second_capped_at_thirty() {
    let cap = Duration::from_secs(30);
    let mut delay = Duration::from_secs(1);
    let mut seen = Vec::new();
    for _ in 0..8 {
        seen.push(delay.as_secs());
        let next = next_delay(delay, cap);
        assert!(no_longer(&delay, &next));
        assert!(no_longer(&next, &cap));
        delay = next;
    }
    assert_eq!(seen, vec![1, 2, 4, 8, 16, 30, 30, 30]);
}

#[test]
fn nanos_of_counts_seconds_and_the_rest() {
    assert_eq!(nanos_of(&Duration::ZERO), 0);
    assert_eq!(nanos_of(&Duration::from_nanos(1)), 1);
    assert_eq!(nanos_of(&Duration::new(0, 999_999_999)), 999_999_999);
    assert_eq!(nanos_of(&Duration::from_secs(1)), 1_000_000_000);
    assert_eq!(nanos_of(&Duration::new(3, 7)), 3_000_000_007);
    assert_eq!(nanos_of(&Duration::from_millis(1500)), 1_500_000_000);
    assert_eq!(nanos_of(&Duration::MAX), 18_446_744_073_709_551_615_999_999_999);
    assert_eq!(nanos_of(&Duration::MAX), Duration::MAX.as_nanos());
}
