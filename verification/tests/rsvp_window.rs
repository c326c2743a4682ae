use julie_vic_wedding::rsvp_window::{is_before, CalendarDate, RsvpDateMiddleware, RsvpDecision};

fn d(year: i32, month: u32, day: u32) -> CalendarDate {
    CalendarDate { year, month, day }
}

#[test]
fn calendar_order() {
    assert!(is_before(&d(2020, 5, 31), &d(2020, 6, 1)));
    assert!(is_before(&d(2019, 12, 31), &d(2020, 1, 1)));
    assert!(is_before(&d(2020, 6, 1), &d(2020, 6, 2)));
    assert!(!is_before(&d(2020, 6, 2), &d(2020, 6, 2)));
    assert!(!is_before(&d(2021, 1, 1), &d(2020, 12, 31)));
}

#[test]
fn decision_open_strictly_before_deadline() {
    let m = RsvpDateMiddleware;
    assert_eq!(m.call(d(2020, 6, 1), "2020-06-02"), RsvpDecision::Proceed);
    assert_eq!(m.call(d(2020, 6, 2), "2020-06-02"), RsvpDecision::Forbidden);
    assert_eq!(m.call(d(2020, 6, 3), "2020-06-02"), RsvpDecision::Forbidden);
    assert_eq!(m.call(d(2019, 12, 31), "2020-01-01"), RsvpDecision::Proceed);
}

#[test]
fn deadline_must_be_a_date() {
    assert!(RsvpDateMiddleware::is_valid_limit_date("2020-06-02"));
    assert!(!RsvpDateMiddleware::is_valid_limit_date("not a date"));
    assert!(!RsvpDateMiddleware::is_valid_limit_date("2020-13-01"));
    assert!(!RsvpDateMiddleware::is_valid_limit_date("2021-02-29"));
    assert!(!RsvpDateMiddleware::is_valid_limit_date(""));
}

#[test]
fn decision_monotone_over_days() {
    let m = RsvpDateMiddleware;
    let days = [d(2020, 5, 30), d(2020, 5, 31), d(2020, 6, 1), d(2020, 6, 2), d(2020, 6, 3)];
    let decisions: Vec<RsvpDecision> = days.iter().map(|t| m.call(*t, "2020-06-02")).collect();
    for i in 1..decisions.len() {
        if decisions[i] == RsvpDecision::Proceed {
            assert_eq!(decisions[i - 1], RsvpDecision::Proceed);
        }
    }
}

#[test]
fn decision_today() {
    let m = RsvpDateMiddleware;
    assert_eq!(m.call_today("2999-01-01"), Some(RsvpDecision::Proceed));
    assert_eq!(m.call_today("2000-01-01"), Some(RsvpDecision::Forbidden));
    assert_eq!(m.call_today("someday"), None);
}
