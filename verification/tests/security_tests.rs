use nanokvm::auth::{login_complete, login_precheck, login_step, Account, LoginPrecheck, LoginOutcome};
use nanokvm::api::LOCKED;
use nanokvm::brute_force::{BruteForce, Security};
use nanokvm::quality::QualityController;

fn test_security(duration_secs: i32, max_failures: i32) -> Security {
    Security {
        login_lockout_duration: duration_secs,
        login_max_failures: max_failures,
        trust_forwarded_headers: false,
    }
}

#[test]
fn test_basic_lockout_flow() {
    let mut bf = BruteForce::new(test_security(300, 3));

    let ip = "192.0.2.1";

    assert!(bf.check(ip).is_none());

    assert!(bf.record_failure(ip).is_none());
    assert!(bf.record_failure(ip).is_none());

    let lock = bf.record_failure(ip);
    assert!(lock.is_some());
    assert_eq!(lock.unwrap().0, LOCKED);

    let locked = bf.check(ip);
    assert!(locked.is_some());
    assert_eq!(locked.unwrap().0, LOCKED);

    bf.clear(ip);
    assert!(bf.check(ip).is_none());
}

#[test]
fn test_disabled_when_zero() {
    let bf = BruteForce::new(test_security(0, 5));
    assert!(!bf.is_enabled());

    let bf2 = BruteForce::new(test_security(300, 0));
    assert!(!bf2.is_enabled());
}

#[test]
fn test_quality_decrease_on_failures() {
    let mut controller = QualityController::new();
    let initial_tier = controller.current_tier_index();

    for _ in 0..10 {
        controller.on_frame_result(false);
    }

    assert!(controller.current_tier_index() >= initial_tier);
}

#[test]
fn test_auto_toggle() {
    let mut controller = QualityController::new();
    assert!(controller.is_auto_enabled());

    controller.set_auto_enabled(false);
    assert!(!controller.is_auto_enabled());

    assert_eq!(controller.get_h264_bitrate(3000), 3000);
    assert_eq!(controller.get_mjpeg_quality(70), 70);
}

#[test]
fn lockout_expires_after_its_duration() {
    let mut bf = BruteForce::new(test_security(300, 2));
    let ip = "198.51.100.7";
    assert!(bf.record_failure_at(ip, 1000).is_none());
    let lock = bf.record_failure_at(ip, 1001);
    assert_eq!(lock.unwrap().0, LOCKED);
    assert!(bf.check_at(ip, 1100).is_some());
    assert!(bf.check_at(ip, 1001 + 300).is_none());
}

#[test]
fn other_addresses_are_not_locked() {
    let mut bf = BruteForce::new(test_security(300, 1));
    assert!(bf.record_failure_at("10.0.0.1", 50).is_some());
    assert!(bf.check_at("10.0.0.2", 51).is_none());
}

#[test]
fn remb_estimates_pick_the_highest_tier_that_fits() {
    let mut q = QualityController::new_at(0);
    q.on_remb_received_at(66_000_000, 10_000);
    assert_eq!(q.current_tier_index(), 0);
    let mut q = QualityController::new_at(0);
    q.on_remb_received_at(1_000_000, 10_000);
    assert_eq!(q.current_tier_index(), 3);
    let mut q = QualityController::new_at(0);
    q.on_remb_received_at(100_000, 10_000);
    assert_eq!(q.current_tier_index(), 4);
}

#[test]
fn login_checks_the_lock_before_the_credentials() {
    let account = Account {
        username: "admin".to_string(),
        password: bcrypt::hash("secret", 4).unwrap(),
        last_password_change: None,
        failed_attempts: 0,
        locked_until: None,
        must_change_password: true,
    };
    let mut bf = BruteForce::new(test_security(300, 2));
    let ip = "203.0.113.9";
    assert!(matches!(login_precheck(&bf, true, ip, 1000), LoginPrecheck::Disabled));
    assert!(matches!(login_precheck(&bf, false, ip, 1000), LoginPrecheck::CheckCredentials));
    assert!(matches!(
        login_step(&mut bf, false, ip, 1000, "admin", "wrong", &account),
        LoginOutcome::Refused { code: -2, .. }
    ));
    assert!(matches!(
        login_complete(&mut bf, ip, 1001, false, false),
        LoginOutcome::Refused { code, .. } if code == LOCKED
    ));
    assert!(matches!(login_precheck(&bf, false, ip, 1002), LoginPrecheck::Refused { code, .. } if code == LOCKED));
    // Even the right password is refused while the address is locked.
    assert!(matches!(
        login_step(&mut bf, false, ip, 1002, "admin", "secret", &account),
        LoginOutcome::Refused { code, .. } if code == LOCKED
    ));
    let other = "203.0.113.10";
    assert!(matches!(
        login_step(&mut bf, false, other, 1002, "admin", "secret", &account),
        LoginOutcome::Accepted { requires_password_change: true }
    ));
}
