use host_telemetry::convert::{format_uptime, gb_from_bytes, mb_from_bytes, pad2_string};

#[test]
fn uptime_zero() {
    assert_eq!(format_uptime(0), "00h:00m");
}

#[test]
fn uptime_truncates_seconds() {
    // 3_661_000 ms = 3661 s = 1 h, 1 min, 1 s; the second is dropped.
    assert_eq!(format_uptime(3_661_000), "01h:01m");
}

#[test]
fn uptime_just_under_a_minute() {
    assert_eq!(format_uptime(59_999), "00h:00m");
}

#[test]
fn uptime_hours_not_wrapped() {
    // 100 hours exactly; more than two digits and no wrap at 24.
    assert_eq!(format_uptime(360_000_000), "100h:00m");
}

#[test]
fn uptime_minutes_pad() {
    // 2 h 5 min.
    assert_eq!(format_uptime(7_500_000), "02h:05m");
}

#[test]
fn mb_one_mebibyte() {
    assert_eq!(mb_from_bytes(1_048_576), 1);
}

#[test]
fn mb_zero() {
    assert_eq!(mb_from_bytes(0), 0);
}

#[test]
fn mb_truncates() {
    assert_eq!(mb_from_bytes(2_097_151), 1);
    assert_eq!(mb_from_bytes(2_097_152), 2);
}

#[test]
fn gb_truncates() {
    assert_eq!(gb_from_bytes(1_073_741_823), 0);
    assert_eq!(gb_from_bytes(107_374_182_400), 100);
}

#[test]
fn pad2_pads_single_digits_only() {
    assert_eq!(pad2_string(7), "07");
    assert_eq!(pad2_string(42), "42");
    assert_eq!(pad2_string(0), "00");
}
