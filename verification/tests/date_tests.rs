use kemono_dl::date::date_before;
use kemono_dl::date::parse_date;
use kemono_dl::date::Date;

#[test]
fn parses_the_date_prefix_of_a_timestamp() {
    assert_eq!(
        parse_date("2023-01-15T12:34:56"),
        Some(Date { year: 2023, month: 1, day: 15 })
    );
    assert_eq!(parse_date("2025-01-01"), Some(Date { year: 2025, month: 1, day: 1 }));
}

#[test]
fn rejects_malformed_dates() {
    assert_eq!(parse_date(""), None);
    assert_eq!(parse_date("2025"), None);
    assert_eq!(parse_date("2025/01/01"), None);
    assert_eq!(parse_date("abcd-ef-gh"), None);
    assert_eq!(parse_date("2025-13-01"), None);
    assert_eq!(parse_date("2025-00-10"), None);
    assert_eq!(parse_date("2025-04-31"), None);
}

#[test]
fn knows_leap_years() {
    assert_eq!(parse_date("2024-02-29"), Some(Date { year: 2024, month: 2, day: 29 }));
    assert_eq!(parse_date("2023-02-29"), None);
    assert_eq!(parse_date("1900-02-29"), None);
    assert_eq!(parse_date("2000-02-29"), Some(Date { year: 2000, month: 2, day: 29 }));
}

#[test]
fn orders_dates_by_year_month_day() {
    let a = Date { year: 2023, month: 12, day: 31 };
    let b = Date { year: 2024, month: 1, day: 1 };
    assert!(date_before(&a, &b));
    assert!(!date_before(&b, &a));
    assert!(!date_before(&a, &a));
    let c = Date { year: 2024, month: 1, day: 2 };
    assert!(date_before(&b, &c));
}
