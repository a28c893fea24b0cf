use turtle_graphics::interval::IntervalChecker;

#[test]
fn fresh_checker_is_quiet_during_the_first_interval() {
    let mut checker = IntervalChecker::new(100);
    assert!(!checker.should_run(0));
    assert!(!checker.should_run(50));
    assert!(!checker.should_run(99));
}

#[test]
fn checker_fires_when_an_interval_boundary_is_crossed() {
    let mut checker = IntervalChecker::new(100);
    assert!(!checker.should_run(99));
    assert!(checker.should_run(100));
}

#[test]
fn checker_fires_once_however_often_it_is_polled_within_an_interval() {
    let mut checker = IntervalChecker::new(100);
    assert!(checker.should_run(100));
    assert!(!checker.should_run(100));
    assert!(!checker.should_run(101));
    assert!(!checker.should_run(150));
    assert!(!checker.should_run(199));
    assert!(checker.should_run(200));
    assert!(!checker.should_run(200));
}

#[test]
fn checker_fires_once_when_several_boundaries_are_crossed_at_a_time() {
    let mut checker = IntervalChecker::new(100);
    assert!(checker.should_run(450));
    assert!(!checker.should_run(499));
    assert!(checker.should_run(500));
}

#[test]
fn checker_does_not_fire_when_the_clock_goes_back() {
    let mut checker = IntervalChecker::new(10);
    assert!(checker.should_run(55));
    assert!(!checker.should_run(30));
    assert!(!checker.should_run(59));
    assert!(checker.should_run(60));
}

#[test]
fn fires_are_bounded_by_the_intervals_that_have_passed() {
    let mut checker = IntervalChecker::new(100);
    let mut fired: u32 = 0;
    for time_ms in [0u64, 50, 100, 250, 400] {
        if checker.should_run(time_ms) {
            fired += 1;
        }
    }
    assert_eq!(fired, 3);
    assert!(fired <= 4);
}

#[test]
fn polling_every_millisecond_fires_once_per_interval() {
    let mut checker = IntervalChecker::new(7);
    let mut fired: u64 = 0;
    for time_ms in 0u64..=700 {
        if checker.should_run(time_ms) {
            fired += 1;
        }
    }
    assert_eq!(fired, 100);
}

#[test]
fn checker_with_cadence_one_fires_at_every_new_millisecond() {
    let mut checker = IntervalChecker::new(1);
    assert!(!checker.should_run(0));
    assert!(checker.should_run(1));
    assert!(!checker.should_run(1));
    assert!(checker.should_run(2));
    assert!(checker.should_run(u64::MAX));
    assert!(!checker.should_run(u64::MAX));
}

#[test]
fn checker_reports_its_cadence() {
    let checker = IntervalChecker::new(250);
    assert_eq!(checker.interval_ms(), 250);
}
