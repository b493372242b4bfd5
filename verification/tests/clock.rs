use aws_image_upload::clock::stamp_at;

fn has_stamp_shape(s: &str) -> bool {
    let b = s.as_bytes();
    let n = b.len();
    if n < 19 {
        return false;
    }
    let two = |at: usize| b[at].is_ascii_digit() && b[at + 1].is_ascii_digit();
    let year = &b[6..n - 9];
    let year_ok = if year.len() == 4 {
        year.iter().all(|c| c.is_ascii_digit())
    } else {
        year.len() >= 5 && (year[0] == b'+' || year[0] == b'-') && year[1..].iter().all(|c| c.is_ascii_digit())
    };
    two(0) && b[2] == b'-' && two(3) && b[5] == b'-' && year_ok && b[n - 9] == b'_' && two(n - 8)
        && b[n - 6] == b':' && two(n - 5) && b[n - 3] == b':' && two(n - 2)
}

#[test]
fn stamp_of_the_start_of_1970() {
    assert_eq!(stamp_at(0).unwrap(), "01-01-1970_00:00:00");
}

#[test]
fn stamp_of_a_moment_in_2022() {
    assert_eq!(stamp_at(1_671_000_000).unwrap(), "14-12-2022_06:40:00");
}

#[test]
fn stamp_of_the_last_second_of_a_leap_day() {
    assert_eq!(stamp_at(1_709_251_199).unwrap(), "29-02-2024_23:59:59");
}

#[test]
fn stamp_before_1970() {
    assert_eq!(stamp_at(-1).unwrap(), "31-12-1969_23:59:59");
}

#[test]
fn stamp_is_not_the_number_of_seconds() {
    assert_ne!(stamp_at(1_671_000_000).unwrap(), "1671000000");
}

#[test]
fn stamp_of_a_year_of_five_digits_carries_a_sign() {
    assert_eq!(stamp_at(253_402_300_800).unwrap(), "01-01-+10000_00:00:00");
}

#[test]
fn stamp_of_a_year_before_zero_carries_a_sign() {
    assert_eq!(stamp_at(-62_167_219_201).unwrap(), "31-12--0001_23:59:59");
    assert_eq!(stamp_at(-62_167_219_200).unwrap(), "01-01-0000_00:00:00");
}

#[test]
fn no_stamp_outside_the_dates_that_can_be_written() {
    assert_eq!(stamp_at(i64::MAX), None);
    assert_eq!(stamp_at(i64::MIN), None);
}

#[test]
fn stamp_agrees_with_chrono() {
    for secs in [0i64, 1, 59, 60, 86_399, 86_400, 951_782_400, 1_671_000_000, 4_102_444_800, -86_400] {
        let moment = chrono::DateTime::from_timestamp(secs, 0).unwrap();
        assert_eq!(stamp_at(secs).unwrap(), moment.format("%d-%m-%Y_%H:%M:%S").to_string());
    }
}

#[test]
fn stamps_have_the_shape_of_a_stamp() {
    let mut secs: i64 = -70_000_000_000;
    while secs < 300_000_000_000 {
        let stamp = stamp_at(secs).unwrap();
        assert!(has_stamp_shape(&stamp), "{}", stamp);
        secs += 987_654_321;
    }
}

#[test]
fn stamp_within_four_digit_years_has_nineteen_places() {
    for secs in [0i64, 1_671_000_000, 253_402_300_799, -62_167_219_200] {
        assert_eq!(stamp_at(secs).unwrap().len(), 19);
    }
}

#[test]
fn first_and_last_moment_that_can_be_written() {
    let first = chrono::DateTime::<chrono::Utc>::MIN_UTC.timestamp();
    let last = chrono::DateTime::<chrono::Utc>::MAX_UTC.timestamp();
    for secs in [first, first + 1, last - 1, last] {
        let stamp = stamp_at(secs).unwrap();
        assert!(has_stamp_shape(&stamp), "{}", stamp);
    }
    assert_eq!(stamp_at(first - 1), None);
    assert_eq!(stamp_at(last + 1), None);
}
