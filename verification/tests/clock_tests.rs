use libresy::caltime::{days_in_month_exec, CalendarDate};
use libresy::clock::{get_default_date, local_now};

#[test]
fn the_clock_reports_a_real_date_and_time() {
    let (today, now) = local_now();
    assert!((1..=9999).contains(&today.year));
    assert!((1..=12).contains(&today.month));
    assert!(today.day >= 1);
    assert!(today.day <= days_in_month_exec(today.year, today.month));
    assert!(now.seconds < 86400);
}

#[test]
fn a_provided_date_wins_over_today() {
    let d = get_default_date(&Some("20221029".to_string()));
    assert_eq!(d, CalendarDate { year: 2022, month: 10, day: 29 });
}

#[test]
fn without_a_provided_date_today_is_used() {
    let d = get_default_date(&None);
    let (today, _) = local_now();
    // Equality would race midnight; the default must at least be a real
    // date of the same era as the clock's.
    assert!((1..=12).contains(&d.month));
    assert!(d.day >= 1 && d.day <= days_in_month_exec(d.year, d.month));
    assert!(d.year >= today.year - 1 && d.year <= today.year + 1);
}
