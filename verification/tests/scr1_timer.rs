use hal_mik32::scr1_timer::{
    check_divider, compare_after, compare_writes, consistent_counter, duration_to_ticks, join,
    schedule, split, ClockSource, CompareSchedule, Error,
};

#[test]
fn converts_duration_using_input_clock_and_divider() {
    assert_eq!(duration_to_ticks(1_000_000, 32_000_000, 31), Ok(1_000));
    assert_eq!(duration_to_ticks(1_001, 1_000_000, 0), Ok(2));
    assert_eq!(duration_to_ticks(1, 32_000, 0), Ok(1));
}

#[test]
fn rejects_invalid_or_unrepresentable_duration() {
    assert_eq!(duration_to_ticks(0, 1, 0), Err(Error::ZeroDuration));
    assert_eq!(duration_to_ticks(1, 0, 0), Err(Error::ZeroClockFrequency));
    assert_eq!(
        duration_to_ticks(u64::MAX, u32::MAX, 0),
        Err(Error::DurationTooLong)
    );
}

#[test]
fn divider_has_ten_bits() {
    assert_eq!(check_divider(0x3ff), Ok(0x3ff));
    assert_eq!(check_divider(0x400), Err(Error::DividerTooLarge));
    assert_eq!(ClockSource::default(), ClockSource::Hclk);
}

#[test]
fn sixty_four_bit_values_split_and_join() {
    assert_eq!(split(0x0123_4567_89ab_cdef), (0x89ab_cdef, 0x0123_4567));
    assert_eq!(join(0x0123_4567, 0x89ab_cdef), 0x0123_4567_89ab_cdef);
    assert_eq!(consistent_counter(1, 5, 1), Some(0x1_0000_0005));
    assert_eq!(consistent_counter(1, 5, 2), None);
    assert_eq!(compare_writes(0x0000_0002_0000_0003), (u32::MAX, 2, 3));
}

#[test]
fn compare_threshold_wraps() {
    assert_eq!(compare_after(u64::MAX, 2), 1);
    assert_eq!(compare_after(10, 5), 15);
    assert_eq!(schedule(100, 1_000), CompareSchedule { ticks: 1_000, threshold: 1_100 });
}

#[test]
fn rounded_ticks_never_fire_early() {
    // 1001 ns at 1 MHz: one tick lasts 1000 ns, so two ticks are needed.
    let ticks = duration_to_ticks(1_001, 1_000_000, 0).unwrap();
    assert!(ticks * 1_000 >= 1_001);
    assert!((ticks - 1) * 1_000 < 1_001);
    // While the compare value changes, the intermediate value never drops
    // below the new threshold.
    let (guard, high, low) = compare_writes(0x0000_0005_0000_0010);
    assert!(join(high, guard) >= join(high, low));
}
