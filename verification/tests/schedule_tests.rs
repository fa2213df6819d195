use libresy::caltime::{CalendarDate, TimeOfDay};
use libresy::schedule::{delay_until_start, effective_date};

fn hm(hour: u32, minute: u32) -> TimeOfDay {
    TimeOfDay::from_hm(hour, minute)
}

#[test]
fn same_day_delay_when_start_is_still_ahead() {
    // 11:00 now, start 11:59: 59 minutes to wait.
    assert_eq!(delay_until_start(hm(11, 0), hm(11, 59)), 59 * 60);
}

#[test]
fn rolls_over_to_tomorrow_when_start_has_passed() {
    // 12:00 now, start 11:59: wait until tomorrow 11:59.
    assert_eq!(delay_until_start(hm(12, 0), hm(11, 59)), 24 * 3600 - 60);
}

#[test]
fn rolls_over_a_full_day_when_start_is_now() {
    assert_eq!(delay_until_start(hm(8, 15), hm(8, 15)), 24 * 3600);
}

#[test]
fn delay_is_never_negative_and_at_most_a_day() {
    let probes = [(0u32, 0u32), (0, 1), (23, 59), (12, 0), (6, 30)];
    for (nh, nm) in probes {
        for (sh, sm) in probes {
            let d = delay_until_start(hm(nh, nm), hm(sh, sm));
            assert!(d > 0);
            assert!(d <= 24 * 3600);
        }
    }
}

#[test]
fn effective_date_keeps_the_base_without_an_offset() {
    let base = CalendarDate { year: 2022, month: 10, day: 29 };
    assert_eq!(effective_date(base, None), Some(base));
}

#[test]
fn effective_date_adds_the_offset() {
    let base = CalendarDate { year: 2022, month: 10, day: 30 };
    assert_eq!(
        effective_date(base, Some(2)),
        Some(CalendarDate { year: 2022, month: 11, day: 1 })
    );
    assert_eq!(
        effective_date(base, Some(63)),
        Some(CalendarDate { year: 2023, month: 1, day: 1 })
    );
}
