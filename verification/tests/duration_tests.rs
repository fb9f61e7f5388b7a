use tsdb_core::duration::{Duration, DurationUnit, Precision};

#[test]
fn empty_text_yields_no_duration() {
    assert_eq!(Duration::new(""), None);
}

#[test]
fn unknown_unit_yields_no_duration() {
    assert_eq!(Duration::new("7x"), None);
}

#[test]
fn bare_integer_defaults_to_days() {
    assert_eq!(Duration::new("7"), Some(Duration { time_num: 7, unit: DurationUnit::Day }));
}

#[test]
fn hour_unit_is_parsed() {
    assert_eq!(Duration::new("3h"), Some(Duration { time_num: 3, unit: DurationUnit::Hour }));
}

#[test]
fn unit_letter_is_case_insensitive() {
    assert_eq!(Duration::new("10D"), Some(Duration { time_num: 10, unit: DurationUnit::Day }));
    assert_eq!(Duration::new("5M"), Some(Duration { time_num: 5, unit: DurationUnit::Minutes }));
    assert_eq!(Duration::new("2H"), Some(Duration { time_num: 2, unit: DurationUnit::Hour }));
}

#[test]
fn overflowing_magnitude_yields_no_duration() {
    assert_eq!(Duration::new("99999999999999999999999"), None);
    assert_eq!(Duration::new("99999999999999999999999d"), None);
}

#[test]
fn largest_magnitude_is_kept() {
    assert_eq!(
        Duration::new("18446744073709551615"),
        Some(Duration { time_num: u64::MAX, unit: DurationUnit::Day })
    );
}

#[test]
fn unit_without_magnitude_yields_no_duration() {
    assert_eq!(Duration::new("d"), None);
}

#[test]
fn duration_text_names_the_unit() {
    let d = Duration { time_num: 365, unit: DurationUnit::Day };
    assert_eq!(d.to_text(), "365 Days");
    let h = Duration { time_num: 3, unit: DurationUnit::Hour };
    assert_eq!(h.to_text(), "3 Hours");
    let m = Duration { time_num: 59, unit: DurationUnit::Minutes };
    assert_eq!(m.to_text(), "59 Minutes");
}

#[test]
fn precision_is_case_insensitive() {
    assert_eq!(Precision::new("ms"), Some(Precision::MS));
    assert_eq!(Precision::new("US"), Some(Precision::US));
    assert_eq!(Precision::new("nS"), Some(Precision::NS));
}

#[test]
fn unknown_precision_yields_no_value() {
    assert_eq!(Precision::new(""), None);
    assert_eq!(Precision::new("ps"), None);
    assert_eq!(Precision::new("nss"), None);
}

#[test]
fn precision_text_is_upper_case() {
    assert_eq!(Precision::MS.as_str(), "MS");
    assert_eq!(Precision::US.as_str(), "US");
    assert_eq!(Precision::NS.as_str(), "NS");
}
