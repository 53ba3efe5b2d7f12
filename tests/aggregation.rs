use org_metrics::aggregation::{count_query, cutoff_date, decimal_text, pr_count, search_filter, CountResponse};
use org_metrics::date::CivilDate;
use org_metrics::error::MetricsError;

fn date(y: i32, m: u32, d: u32) -> CivilDate {
    CivilDate::new(y, m, d).unwrap()
}

#[test]
fn cutoff_five_days_before() {
    assert_eq!(cutoff_date(date(2024, 3, 10), 5), Ok(date(2024, 3, 5)));
}

#[test]
fn cutoff_query_names_cutoff_day() {
    let q = count_query("acme", "widget", date(2024, 3, 10), 5).unwrap();
    assert!(q.contains("created:>2024-03-05"));
    assert_eq!(q, "repo:acme/widget is:pr created:>2024-03-05");
}

#[test]
fn cutoff_crosses_leap_day_and_year() {
    assert_eq!(cutoff_date(date(2024, 3, 1), 1), Ok(date(2024, 2, 29)));
    assert_eq!(cutoff_date(date(2024, 1, 1), 1), Ok(date(2023, 12, 31)));
    assert_eq!(cutoff_date(date(2024, 3, 10), 0), Ok(date(2024, 3, 10)));
    assert_eq!(cutoff_date(date(2024, 3, 10), -1), Ok(date(2024, 3, 11)));
}

#[test]
fn cutoff_query_pads_month_and_day() {
    let q = count_query("o", "r", date(2021, 5, 18), 30).unwrap();
    assert_eq!(q, "repo:o/r is:pr created:>2021-04-18");
}

#[test]
fn cutoff_out_of_range() {
    assert_eq!(cutoff_date(date(2024, 3, 10), i64::MAX), Err(MetricsError::DateOutOfRange));
    assert_eq!(count_query("o", "r", date(2024, 3, 10), i64::MIN), Err(MetricsError::DateOutOfRange));
}

#[test]
fn search_filter_grammar() {
    assert_eq!(search_filter("org", "repo", "2024-01-02"), "repo:org/repo is:pr created:>2024-01-02");
}

#[test]
fn decimal_text_values() {
    assert_eq!(decimal_text(0), "0");
    assert_eq!(decimal_text(7), "7");
    assert_eq!(decimal_text(30), "30");
    assert_eq!(decimal_text(1234567890), "1234567890");
    assert_eq!(decimal_text(u64::MAX), u64::MAX.to_string());
}

#[test]
fn pr_count_outcomes() {
    assert_eq!(pr_count(Some(CountResponse { issue_count: 3 })), Ok(3));
    assert_eq!(pr_count(Some(CountResponse { issue_count: 0 })), Ok(0));
    assert_eq!(pr_count(None), Err(MetricsError::MissingPayload));
    assert_eq!(pr_count(Some(CountResponse { issue_count: -1 })), Err(MetricsError::NegativeCount));
}

#[test]
fn civil_date_validity() {
    assert!(CivilDate::new(2024, 2, 29).is_some());
    assert!(CivilDate::new(2023, 2, 29).is_none());
    assert!(CivilDate::new(1900, 2, 29).is_none());
    assert!(CivilDate::new(2000, 2, 29).is_some());
    assert!(CivilDate::new(2024, 4, 31).is_none());
    assert!(CivilDate::new(2024, 13, 1).is_none());
    assert!(CivilDate::new(2024, 1, 0).is_none());
    assert!(CivilDate::new(262143, 1, 1).is_none());
}

#[test]
fn cutoff_query_signed_years() {
    let q = count_query("o", "r", date(10005, 1, 10), 5).unwrap();
    assert_eq!(q, "repo:o/r is:pr created:>+10005-01-05");
    let q = count_query("o", "r", date(-5, 1, 10), 5).unwrap();
    assert_eq!(q, "repo:o/r is:pr created:>-0005-01-05");
    let q = count_query("o", "r", date(42, 12, 31), 0).unwrap();
    assert_eq!(q, "repo:o/r is:pr created:>0042-12-31");
}
