use timelog::calendar::CalendarTime;

fn reading(year: i32, month: u32, day: u32, hour: u32, minute: u32, second: u32) -> CalendarTime {
    CalendarTime { year, month, day, hour, minute, second }
}

fn std_slashed(r: &CalendarTime) -> String {
    format!(
        "{:04}/{:02}/{:02} {:02}:{:02}:{:02}",
        r.year, r.month, r.day, r.hour, r.minute, r.second
    )
}

#[test]
fn slashed_text_of_an_ordinary_reading() {
    assert_eq!(reading(2024, 3, 5, 7, 8, 9).to_slashed_string(), "2024/03/05 07:08:09");
    assert_eq!(reading(1970, 1, 1, 0, 0, 0).to_slashed_string(), "1970/01/01 00:00:00");
    assert_eq!(reading(1999, 12, 31, 23, 59, 59).to_slashed_string(), "1999/12/31 23:59:59");
}

#[test]
fn slashed_text_pads_a_short_year() {
    assert_eq!(reading(7, 1, 2, 3, 4, 5).to_slashed_string(), "0007/01/02 03:04:05");
    assert_eq!(reading(0, 1, 1, 0, 0, 0).to_slashed_string(), "0000/01/01 00:00:00");
    assert_eq!(reading(987, 10, 20, 11, 12, 13).to_slashed_string(), "0987/10/20 11:12:13");
}

#[test]
fn slashed_text_keeps_a_long_year() {
    assert_eq!(reading(10000, 1, 1, 0, 0, 0).to_slashed_string(), "10000/01/01 00:00:00");
    assert_eq!(reading(262142, 12, 31, 23, 59, 59).to_slashed_string(), "262142/12/31 23:59:59");
}

#[test]
fn slashed_text_counts_the_sign_of_a_negative_year() {
    assert_eq!(reading(-1, 12, 31, 0, 0, 0).to_slashed_string(), "-001/12/31 00:00:00");
    assert_eq!(reading(-45, 3, 15, 12, 0, 0).to_slashed_string(), "-045/03/15 12:00:00");
    assert_eq!(reading(-999, 1, 1, 0, 0, 0).to_slashed_string(), "-999/01/01 00:00:00");
    assert_eq!(reading(-1000, 1, 1, 0, 0, 0).to_slashed_string(), "-1000/01/01 00:00:00");
    assert_eq!(reading(-262143, 1, 1, 0, 0, 0).to_slashed_string(), "-262143/01/01 00:00:00");
}

#[test]
fn slashed_text_of_all_zeros_is_the_unset_text() {
    assert_eq!(reading(0, 0, 0, 0, 0, 0).to_slashed_string(), "0000/00/00 00:00:00");
}

#[test]
fn slashed_text_keeps_fields_that_are_too_wide() {
    assert_eq!(reading(2024, 123, 456, 789, 100, 4294967295).to_slashed_string(),
        "2024/123/456 789:100:4294967295");
}

#[test]
fn slashed_text_at_the_ends_of_the_fields() {
    for r in [
        reading(i32::MAX, u32::MAX, u32::MAX, u32::MAX, u32::MAX, u32::MAX),
        reading(i32::MIN, 0, 0, 0, 0, 0),
        reading(i32::MIN, u32::MAX, 1, 10, 99, 100),
    ] {
        assert_eq!(r.to_slashed_string(), std_slashed(&r));
    }
    assert_eq!(reading(i32::MIN, 1, 1, 0, 0, 0).to_slashed_string(), "-2147483648/01/01 00:00:00");
}

#[test]
fn slashed_text_agrees_with_the_std_formatter() {
    let years = [-262144, -10000, -9999, -100, -10, -9, -1, 0, 1, 9, 10, 99, 100, 999, 1000, 9999, 10000];
    for year in years {
        for small in [0u32, 1, 9, 10, 12, 31, 59, 60, 99, 100] {
            let r = reading(year, small, small, small, small, small);
            assert_eq!(r.to_slashed_string(), std_slashed(&r));
        }
    }
}

#[test]
fn readings_compare_field_by_field() {
    assert_eq!(reading(2024, 3, 5, 7, 8, 9), reading(2024, 3, 5, 7, 8, 9));
    assert_ne!(reading(2024, 3, 5, 7, 8, 9), reading(2024, 3, 5, 7, 8, 10));
}
