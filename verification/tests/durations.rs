use markdown_test_report::duration::{format_precise, human_duration_secs, Duration};
use markdown_test_report::text::u64_to_string;

#[test]
fn renders_integers_in_decimal() {
    assert_eq!(u64_to_string(0), "0");
    assert_eq!(u64_to_string(7), "7");
    assert_eq!(u64_to_string(42), "42");
    assert_eq!(u64_to_string(1000), "1000");
    assert_eq!(u64_to_string(u64::MAX), "18446744073709551615");
}

#[test]
fn precise_durations_keep_subsecond_digits() {
    assert_eq!(format_precise(&Duration { secs: 1, nanos: 500_000_000 }), "1.5s");
    assert_eq!(format_precise(&Duration { secs: 1, nanos: 700_000_000 }), "1.7s");
    assert_eq!(format_precise(&Duration { secs: 2, nanos: 0 }), "2s");
    assert_eq!(format_precise(&Duration { secs: 1, nanos: 234_567_890 }), "1.23456789s");
}

#[test]
fn precise_durations_pick_the_readable_unit() {
    assert_eq!(format_precise(&Duration { secs: 0, nanos: 120_000_000 }), "120ms");
    assert_eq!(format_precise(&Duration { secs: 0, nanos: 1_500_000 }), "1.5ms");
    assert_eq!(format_precise(&Duration { secs: 0, nanos: 1_500 }), "1.5µs");
    assert_eq!(format_precise(&Duration { secs: 0, nanos: 999 }), "999ns");
    assert_eq!(format_precise(&Duration { secs: 0, nanos: 0 }), "0ns");
}

#[test]
fn precise_durations_match_the_std_debug_form() {
    for (secs, nanos) in [
        (0u64, 0u32),
        (0, 1),
        (0, 999),
        (0, 1_000),
        (0, 1_500),
        (0, 999_999),
        (0, 1_000_000),
        (0, 120_000_000),
        (1, 0),
        (1, 500_000_000),
        (1, 234_567_890),
        (90, 7),
        (3661, 100),
    ] {
        let expected = format!("{:?}", std::time::Duration::new(secs, nanos));
        assert_eq!(format_precise(&Duration { secs, nanos }), expected);
    }
}

#[test]
fn human_durations_round_to_whole_seconds() {
    assert_eq!(human_duration_secs(0), "0s");
    assert_eq!(human_duration_secs(1), "1s");
    assert_eq!(human_duration_secs(90), "1m 30s");
    assert_eq!(human_duration_secs(3661), "1h 1m 1s");
}

#[test]
fn saturating_addition_carries_subseconds() {
    let a = Duration { secs: 1, nanos: 600_000_000 };
    let b = Duration { secs: 2, nanos: 500_000_000 };
    assert_eq!(a.add_sat(b), Duration { secs: 4, nanos: 100_000_000 });
    let max = Duration { secs: u64::MAX, nanos: 999_999_999 };
    assert_eq!(max.add_sat(b), max);
}
