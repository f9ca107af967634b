use install_loader::timer::TimeoutTimer;
use install_loader::windows_paths::strip_unc_prefix;

#[test]
fn timer_expiry_decision_over_clock_readings() {
    let timer = TimeoutTimer { last_refresh: 1000, timeout: 500 };
    assert!(!timer.expired_at(1000));
    assert!(!timer.expired_at(1500));
    assert!(timer.expired_at(1501));
    // A clock that jumped backwards counts as no time passed.
    assert!(!timer.expired_at(0));
}

#[test]
fn fresh_timer_is_not_expired() {
    let timer = TimeoutTimer::new(60_000);
    assert!(!timer.expired());
}

#[test]
fn refresh_restarts_the_span() {
    let mut timer = TimeoutTimer { last_refresh: 0, timeout: 10 };
    assert!(timer.expired_at(5_000));
    timer.refresh();
    assert!(!timer.expired());
}

#[test]
fn verbatim_prefix_is_stripped() {
    assert_eq!(strip_unc_prefix(r"\\?\C:\Users\me\a.txt"), r"C:\Users\me\a.txt");
    assert_eq!(strip_unc_prefix(r"C:\Users\me\a.txt"), r"C:\Users\me\a.txt");
    assert_eq!(strip_unc_prefix(r"\\?\"), "");
    assert_eq!(strip_unc_prefix(""), "");
    assert_eq!(strip_unc_prefix(r"\\server\share"), r"\\server\share");
}
