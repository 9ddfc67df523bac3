use jade_engine::clock::{chrono_like_now, clock_from_readings, format_clock};

#[test]
fn format_clock_pads_every_field() {
    assert_eq!(format_clock(0, 0), "00:00:00.000");
    assert_eq!(format_clock(9, 9), "00:00:09.009");
    assert_eq!(format_clock(3600 * 10 + 60 * 7 + 3, 40), "10:07:03.040");
    assert_eq!(format_clock(86399, 999), "23:59:59.999");
    assert_eq!(format_clock(86400, 1), "00:00:00.001");
}

#[test]
fn current_time_of_day_is_well_formed() {
    let now = chrono_like_now();
    let b = now.as_bytes();
    assert_eq!(b.len(), 12);
    assert_eq!(b[2], b':');
    assert_eq!(b[5], b':');
    assert_eq!(b[8], b'.');
    let hours = (b[0] - b'0') * 10 + (b[1] - b'0');
    assert!(hours < 24);
    assert!(b[3] < b'6' && b[6] < b'6');
}

#[test]
fn missing_readings_count_as_zero() {
    assert_eq!(clock_from_readings(None, None), "00:00:00.000");
    assert_eq!(clock_from_readings(Some(3661), None), "01:01:01.000");
    assert_eq!(clock_from_readings(None, Some(250)), "00:00:00.250");
    assert_eq!(clock_from_readings(Some(86399), Some(999)), "23:59:59.999");
}
