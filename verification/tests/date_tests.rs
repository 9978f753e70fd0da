use sanger_rename::date::days_in_month;
use sanger_rename::date::is_leap_year;
use sanger_rename::Date;

#[test]
fn test_new_rejects_invalid_dates() {
    assert!(Date::new(2025, 2, 29).is_none());
    assert!(Date::new(2024, 2, 29).is_some());
    assert!(Date::new(2025, 0, 1).is_none());
    assert!(Date::new(2025, 13, 1).is_none());
    assert!(Date::new(2025, 4, 31).is_none());
    assert!(Date::new(0, 1, 1).is_none());
    assert!(Date::new(9999, 12, 31).is_some());
}

#[test]
fn test_leap_year_rule() {
    assert!(is_leap_year(2024));
    assert!(!is_leap_year(2025));
    assert!(!is_leap_year(1900));
    assert!(is_leap_year(2000));
    assert_eq!(days_in_month(2024, 2), 29);
    assert_eq!(days_in_month(1900, 2), 28);
    assert_eq!(days_in_month(2025, 4), 30);
    assert_eq!(days_in_month(2025, 12), 31);
}

#[test]
fn test_next_and_prev_day() {
    let d = Date::new(2025, 1, 31).unwrap();
    assert_eq!(d.next_day(), Date::new(2025, 2, 1).unwrap());
    let e = Date::new(2025, 12, 31).unwrap();
    assert_eq!(e.next_day(), Date::new(2026, 1, 1).unwrap());
    let f = Date::new(2025, 3, 1).unwrap();
    assert_eq!(f.prev_day(), Date::new(2025, 2, 28).unwrap());
    let g = Date::new(2025, 1, 1).unwrap();
    assert_eq!(g.prev_day(), Date::new(2024, 12, 31).unwrap());
}

#[test]
fn test_day_stepping_clamps_at_bounds() {
    let min = Date::new(1, 1, 1).unwrap();
    assert_eq!(min.prev_day(), min);
    let max = Date::new(9999, 12, 31).unwrap();
    assert_eq!(max.next_day(), max);
}

#[test]
fn test_week_stepping() {
    let d = Date::new(2025, 6, 1).unwrap();
    assert_eq!(d.next_week(), Date::new(2025, 6, 8).unwrap());
    assert_eq!(d.prev_week(), Date::new(2025, 5, 25).unwrap());
    let e = Date::new(2025, 12, 29).unwrap();
    assert_eq!(e.next_week(), Date::new(2026, 1, 5).unwrap());
}

#[test]
fn test_month_stepping_clamps_day() {
    let d = Date::new(2025, 1, 31).unwrap();
    assert_eq!(d.next_month(), Date::new(2025, 2, 28).unwrap());
    let e = Date::new(2025, 3, 31).unwrap();
    assert_eq!(e.prev_month(), Date::new(2025, 2, 28).unwrap());
    let f = Date::new(2025, 12, 6).unwrap();
    assert_eq!(f.next_month(), Date::new(2026, 1, 6).unwrap());
    let g = Date::new(2025, 1, 6).unwrap();
    assert_eq!(g.prev_month(), Date::new(2024, 12, 6).unwrap());
}

#[test]
fn test_today_is_valid() {
    let d = sanger_rename::date::today();
    assert!(Date::new(d.year, d.month, d.day).is_some());
}
