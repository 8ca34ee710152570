use valuation::calendar::CalendarDate;

fn date(text: &str) -> CalendarDate {
    CalendarDate::parse(text).expect("a valid date")
}

#[test]
fn parses_iso_dates() {
    assert_eq!(
        CalendarDate::parse("2026-01-01"),
        Some(CalendarDate { year: 2026, month: 1, day: 1 })
    );
    assert_eq!(
        CalendarDate::parse("2028-02-29"),
        Some(CalendarDate { year: 2028, month: 2, day: 29 })
    );
}

#[test]
fn rejects_texts_that_are_not_dates() {
    assert_eq!(CalendarDate::parse("2027-02-29"), None);
    assert_eq!(CalendarDate::parse("2026-13-01"), None);
    assert_eq!(CalendarDate::parse("01/02/2026"), None);
    assert_eq!(CalendarDate::parse(""), None);
}

#[test]
fn counts_days_between_dates() {
    assert_eq!(date("2027-01-01").days_since(&date("2026-01-01")), 365);
    assert_eq!(date("2029-01-01").days_since(&date("2028-01-01")), 366);
    assert_eq!(date("2025-12-31").days_since(&date("2025-01-01")), 364);
    assert_eq!(date("2025-01-01").days_since(&date("2025-12-31")), -364);
    assert_eq!(date("2024-03-01").days_since(&date("2024-02-28")), 2);
    assert_eq!(date("2100-03-01").days_since(&date("2100-02-28")), 1);
    assert_eq!(date("2014-01-01").days_since(&date("1614-01-01")), 365 * 400 + 97);
    assert_eq!(date("2026-05-17").days_since(&date("2026-05-17")), 0);
}
