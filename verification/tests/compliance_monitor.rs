use velopay::compliance::{AlertLevel, Compliance};
use velopay::config::{Config, Origin};
use velopay::errors::OpError;
use velopay::events::Event;

fn cfg() -> Config {
    Config {
        daily_limit: 1000,
        suspicious_threshold: 500,
        max_reason_len: 16,
        blocks_per_period: 100,
        max_fee_bps: 10000,
    }
}

#[test]
fn flag_absoluteness() {
    let cfg = cfg();
    let mut c = Compliance::new();
    c.set_compliance_officer(Origin::Root, 5).unwrap();
    c.flag_account(Origin::Signed(5), 7).unwrap();
    // A flagged account fails for every amount, independent of volume state.
    assert_eq!(c.check_transaction(7, 0, 10, &cfg), Err(OpError::AccountFlagged));
    assert_eq!(c.check_transaction(7, 1, 10, &cfg), Err(OpError::AccountFlagged));
    assert_eq!(
        c.check_transaction(7, u64::MAX, 10, &cfg),
        Err(OpError::AccountFlagged)
    );
    // And no counter was touched by the failed checks.
    assert_eq!(c.volume.get(7, 0), 0);
    // Unflagging restores the ordinary path.
    c.unflag_account(Origin::Signed(5), 7).unwrap();
    assert!(c.check_transaction(7, 1, 10, &cfg).is_ok());
}

#[test]
fn daily_limit_scenario() {
    let cfg = cfg();
    let mut c = Compliance::new();
    // Accumulate 800 at block 10 (period 0).
    c.check_transaction(1, 800, 10, &cfg).unwrap();
    assert_eq!(c.volume.get(1, 0), 800);
    // 300 more would breach the limit of 1000: refused, counter untouched.
    assert_eq!(
        c.check_transaction(1, 300, 10, &cfg),
        Err(OpError::DailyLimitExceeded)
    );
    assert_eq!(c.volume.get(1, 0), 800);
    // 200 exactly reaches the limit and passes.
    c.check_transaction(1, 200, 10, &cfg).unwrap();
    assert_eq!(c.volume.get(1, 0), 1000);
}

#[test]
fn volume_budget_resets_each_period() {
    let cfg = cfg();
    let mut c = Compliance::new();
    c.check_transaction(1, 1000, 10, &cfg).unwrap();
    assert_eq!(
        c.check_transaction(1, 1, 99, &cfg),
        Err(OpError::DailyLimitExceeded)
    );
    // Block 100 lies in the next period: a fresh budget.
    c.check_transaction(1, 1000, 100, &cfg).unwrap();
    assert_eq!(c.volume.get(1, 0), 1000);
    assert_eq!(c.volume.get(1, 1), 1000);
}

#[test]
fn zero_period_length_is_a_configuration_error() {
    let mut bad = cfg();
    bad.blocks_per_period = 0;
    let mut c = Compliance::new();
    assert_eq!(
        c.check_transaction(1, 1, 10, &bad),
        Err(OpError::InvalidConfiguration)
    );
}

#[test]
fn suspicious_amounts_are_reported_not_blocked() {
    let cfg = cfg();
    let mut c = Compliance::new();
    let events = c.check_transaction(1, 500, 10, &cfg).unwrap();
    assert_eq!(
        events,
        vec![Event::SuspiciousActivityDetected { account: 1, amount: 500 }]
    );
    let events = c.check_transaction(2, 499, 10, &cfg).unwrap();
    assert_eq!(events, vec![]);
}

#[test]
fn alert_resolution_is_exactly_once() {
    let cfg = cfg();
    let mut c = Compliance::new();
    c.set_compliance_officer(Origin::Root, 5).unwrap();
    let (id, events) = c
        .create_alert(
            Origin::Signed(5),
            7,
            AlertLevel::High,
            4000,
            b"structuring".to_vec(),
            10,
            &cfg,
        )
        .unwrap();
    assert_eq!(id, 0);
    assert_eq!(
        events,
        vec![Event::AlertCreated { alert_id: 0, account: 7, alert_level: AlertLevel::High }]
    );
    assert_eq!(
        c.resolve_alert(Origin::Signed(5), 0).unwrap(),
        vec![Event::AlertResolved { alert_id: 0 }]
    );
    assert_eq!(
        c.resolve_alert(Origin::Signed(5), 0),
        Err(OpError::AlertAlreadyResolved)
    );
}

#[test]
fn alert_ids_increase_from_zero() {
    let cfg = cfg();
    let mut c = Compliance::new();
    c.set_compliance_officer(Origin::Root, 5).unwrap();
    let reason = b"r".to_vec();
    let (first, _) = c
        .create_alert(Origin::Signed(5), 7, AlertLevel::Low, 1, reason.clone(), 10, &cfg)
        .unwrap();
    let (second, _) = c
        .create_alert(Origin::Signed(5), 8, AlertLevel::Low, 2, reason, 11, &cfg)
        .unwrap();
    assert_eq!(first, 0);
    assert_eq!(second, 1);
}

#[test]
fn alert_reason_length_is_bounded() {
    let cfg = cfg();
    let mut c = Compliance::new();
    c.set_compliance_officer(Origin::Root, 5).unwrap();
    let too_long = vec![b'x'; 17];
    assert_eq!(
        c.create_alert(Origin::Signed(5), 7, AlertLevel::Low, 1, too_long, 10, &cfg),
        Err(OpError::ReasonTooLong)
    );
    let at_bound = vec![b'x'; 16];
    assert!(
        c.create_alert(Origin::Signed(5), 7, AlertLevel::Low, 1, at_bound, 10, &cfg).is_ok()
    );
}

#[test]
fn officer_gate_errors() {
    let mut c = Compliance::new();
    assert_eq!(
        c.flag_account(Origin::Signed(5), 7),
        Err(OpError::NoComplianceOfficer)
    );
    c.set_compliance_officer(Origin::Root, 5).unwrap();
    assert_eq!(c.set_compliance_officer(Origin::Signed(5), 5), Err(OpError::Unauthorized));
    assert_eq!(
        c.flag_account(Origin::Signed(6), 7),
        Err(OpError::NotComplianceOfficer)
    );
    assert_eq!(
        c.resolve_alert(Origin::Signed(5), 99),
        Err(OpError::AlertNotFound)
    );
    c.flag_account(Origin::Signed(5), 7).unwrap();
    assert_eq!(
        c.flag_account(Origin::Signed(5), 7),
        Err(OpError::AccountAlreadyFlagged)
    );
    assert_eq!(
        c.unflag_account(Origin::Signed(5), 8),
        Err(OpError::AccountNotFlagged)
    );
}

#[test]
fn volume_saturates_instead_of_wrapping() {
    let mut wide = cfg();
    wide.daily_limit = u64::MAX;
    wide.suspicious_threshold = u64::MAX;
    let mut c = Compliance::new();
    c.check_transaction(1, u64::MAX - 5, 10, &wide).unwrap();
    c.check_transaction(1, 100, 10, &wide).unwrap();
    assert_eq!(c.volume.get(1, 0), u64::MAX);
}
