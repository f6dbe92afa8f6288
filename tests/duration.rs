use sprompt::humanize_duration;
use std::time::Duration;

#[test]
fn test_humanize_duration() {
    assert_eq!("", humanize_duration(Duration::from_secs(0).as_secs()));
    assert_eq!("59s", humanize_duration(Duration::from_secs(59).as_secs()));
    assert_eq!("1m", humanize_duration(Duration::from_secs(60).as_secs()));
    assert_eq!("1m 59s", humanize_duration(Duration::from_secs(60 + 59).as_secs()));
    assert_eq!("2m 1s", humanize_duration(Duration::from_secs(60 * 2 + 1).as_secs()));
    assert_eq!(
        "59m 59s",
        humanize_duration(Duration::from_secs(60 * 59 + 59).as_secs())
    );
    assert_eq!("1h", humanize_duration(Duration::from_secs(60 * 60).as_secs()));
    assert_eq!(
        "1h 1s",
        humanize_duration(Duration::from_secs(60 * 60 + 1).as_secs())
    );
    assert_eq!(
        "34h 59m 59s",
        humanize_duration(Duration::from_secs(60 * 60 * 34 + 60 * 59 + 59).as_secs())
    );
}

#[test]
fn humanize_skips_zero_units() {
    assert_eq!("1h 1m", humanize_duration(3660));
    assert_eq!("2h", humanize_duration(7200));
    assert_eq!("1s", humanize_duration(1));
    assert_eq!("10m 10s", humanize_duration(610));
    assert_eq!("100h", humanize_duration(360_000));
}

#[test]
fn humanize_never_starts_with_zero_or_ends_with_space() {
    for s in [1u64, 9, 10, 59, 60, 61, 600, 3599, 3600, 3601, 36000, 86399, 122399] {
        let r = humanize_duration(s);
        assert!(!r.is_empty());
        assert!(!r.starts_with('0'), "{}", r);
        assert!(!r.ends_with(' '), "{}", r);
    }
}

#[test]
fn humanize_largest_value() {
    assert_eq!("5124095576030431h 15s", humanize_duration(u64::MAX));
}
