use meeting_assistant::calendar::{civil_date_of, date_of};

#[test]
fn epoch_is_first_of_january_1970() {
    assert_eq!(civil_date_of(0), (1970, 1, 1));
    assert_eq!(date_of(0), "1970-01-01");
    assert_eq!(date_of(86399), "1970-01-01");
    assert_eq!(date_of(86400), "1970-01-02");
}

#[test]
fn recent_dates() {
    assert_eq!(date_of(1700000000), "2023-11-14");
    assert_eq!(date_of(1704067199), "2023-12-31");
    assert_eq!(date_of(1704067200), "2024-01-01");
}

#[test]
fn leap_days() {
    assert_eq!(date_of(951782400), "2000-02-29");
    assert_eq!(date_of(1709164800), "2024-02-29");
    assert_eq!(date_of(1709251200), "2024-03-01");
    // 2100 is not a leap year.
    assert_eq!(date_of(4107456000), "2100-02-28");
    assert_eq!(date_of(4107542400), "2100-03-01");
}

#[test]
fn month_and_day_are_zero_padded() {
    assert_eq!(date_of(4102444800), "2100-01-01");
    assert_eq!(date_of(1696118400), "2023-10-01");
}
