use velopay::config::{Config, Origin};
use velopay::events::Event;
use velopay::token::{BurnRequestStatus, MintRequestStatus, State};

fn wide_open_cfg() -> Config {
    Config {
        daily_limit: u64::MAX,
        suspicious_threshold: u64::MAX,
        max_reason_len: 256,
        blocks_per_period: 100,
        max_fee_bps: 10000,
    }
}

/// Makes `account` KYC-verified by the verifier account 900.
fn verify_account(st: &mut State, account: u64) {
    st.kyc.set_verifier(Origin::Root, 900).unwrap();
    st.kyc.submit_kyc(Origin::Signed(account), 0xABCD, 1).unwrap();
    st.kyc.verify_kyc(Origin::Signed(900), account, 2).unwrap();
}

#[test]
fn mint_scenario() {
    let mut st = State::new();
    verify_account(&mut st, 1);
    st.set_mint_authority(Origin::Root, 2).unwrap();

    let events = st.request_mint(Origin::Signed(1), 1000, 5).unwrap();
    assert_eq!(
        events,
        vec![Event::MintRequested { request_id: 0, requester: 1, amount: 1000 }]
    );
    let req = st.mint_request(0).unwrap();
    assert_eq!(req.status, MintRequestStatus::Pending);
    assert_eq!(req.requester, 1);
    assert_eq!(req.amount, 1000);
    assert_eq!(req.created_at, 5);
    assert_eq!(req.processed_at, None);

    let events = st.approve_mint(Origin::Signed(2), 0, 6).unwrap();
    assert_eq!(
        events,
        vec![Event::MintApproved { request_id: 0, requester: 1, amount: 1000 }]
    );
    assert_eq!(st.ledger.record_of(1).free, 1000);
    assert_eq!(st.ledger.total_supply, 1000);
    let req = st.mint_request(0).unwrap();
    assert_eq!(req.status, MintRequestStatus::Completed);
    assert_eq!(req.processed_at, Some(6));
}

#[test]
fn burn_scenario() {
    let mut st = State::new();
    verify_account(&mut st, 1);
    st.set_mint_authority(Origin::Root, 2).unwrap();
    st.set_burn_authority(Origin::Root, 3).unwrap();
    st.request_mint(Origin::Signed(1), 2000, 3).unwrap();
    st.approve_mint(Origin::Signed(2), 0, 4).unwrap();
    assert_eq!(st.ledger.record_of(1).free, 2000);

    let events = st.request_burn(Origin::Signed(1), 500, 5).unwrap();
    assert_eq!(
        events,
        vec![Event::BurnReserved { request_id: 0, requester: 1, amount: 500 }]
    );
    assert_eq!(st.ledger.record_of(1).free, 1500);
    assert_eq!(st.ledger.record_of(1).reserved, 500);
    assert_eq!(st.burn_request(0).unwrap().status, BurnRequestStatus::Reserved);

    let events = st.approve_burn(Origin::Signed(3), 0, 6).unwrap();
    assert_eq!(
        events,
        vec![Event::BurnApproved { request_id: 0, requester: 1, amount: 500 }]
    );
    assert_eq!(st.ledger.record_of(1).reserved, 0);
    assert_eq!(st.ledger.record_of(1).free, 1500);
    assert_eq!(st.ledger.total_supply, 1500);
    assert_eq!(st.burn_request(0).unwrap().status, BurnRequestStatus::Completed);
}

#[test]
fn burn_reject_restores_free_balance() {
    let mut st = State::new();
    verify_account(&mut st, 1);
    st.set_mint_authority(Origin::Root, 2).unwrap();
    st.set_burn_authority(Origin::Root, 3).unwrap();
    st.request_mint(Origin::Signed(1), 2000, 3).unwrap();
    st.approve_mint(Origin::Signed(2), 0, 4).unwrap();

    st.request_burn(Origin::Signed(1), 500, 5).unwrap();
    let events = st.reject_burn(Origin::Signed(3), 0, 6).unwrap();
    assert_eq!(events, vec![Event::BurnRejected { request_id: 0, requester: 1 }]);
    assert_eq!(st.ledger.record_of(1).free, 2000);
    assert_eq!(st.ledger.record_of(1).reserved, 0);
    assert_eq!(st.ledger.total_supply, 2000);
    assert_eq!(st.burn_request(0).unwrap().status, BurnRequestStatus::Rejected);
}

#[test]
fn transfer_with_fee_scenario() {
    let cfg = wide_open_cfg();
    let mut st = State::new();
    st.kyc.set_verifier(Origin::Root, 900).unwrap();
    for account in [1u64, 2u64] {
        st.kyc.submit_kyc(Origin::Signed(account), 7, 1).unwrap();
        st.kyc.verify_kyc(Origin::Signed(900), account, 2).unwrap();
    }
    st.set_mint_authority(Origin::Root, 3).unwrap();
    st.set_transaction_fee(Origin::Root, 50, &cfg).unwrap();
    st.request_mint(Origin::Signed(1), 10100, 3).unwrap();
    st.approve_mint(Origin::Signed(3), 0, 4).unwrap();

    let events = st.transfer(Origin::Signed(1), 2, 10000, 10, &cfg).unwrap();
    assert_eq!(
        events,
        vec![Event::Transfer { from: 1, to: 2, amount: 10000, fee: 50 }]
    );
    assert_eq!(st.ledger.record_of(1).free, 50);
    assert_eq!(st.ledger.record_of(2).free, 10000);
    assert_eq!(st.ledger.record_of(3).free, 50);
    assert_eq!(st.ledger.total_supply, 10100);
}

#[test]
fn transfer_reports_suspicious_amounts_without_blocking() {
    let mut cfg = wide_open_cfg();
    cfg.suspicious_threshold = 5000;
    let mut st = State::new();
    st.kyc.set_verifier(Origin::Root, 900).unwrap();
    for account in [1u64, 2u64] {
        st.kyc.submit_kyc(Origin::Signed(account), 7, 1).unwrap();
        st.kyc.verify_kyc(Origin::Signed(900), account, 2).unwrap();
    }
    st.set_mint_authority(Origin::Root, 3).unwrap();
    st.request_mint(Origin::Signed(1), 9000, 3).unwrap();
    st.approve_mint(Origin::Signed(3), 0, 4).unwrap();

    let events = st.transfer(Origin::Signed(1), 2, 6000, 10, &cfg).unwrap();
    assert_eq!(
        events,
        vec![
            Event::SuspiciousActivityDetected { account: 1, amount: 6000 },
            Event::SuspiciousActivityDetected { account: 2, amount: 6000 },
            Event::Transfer { from: 1, to: 2, amount: 6000, fee: 0 },
        ]
    );
    assert_eq!(st.ledger.record_of(2).free, 6000);
}

#[test]
fn fee_formula_examples() {
    let cfg = wide_open_cfg();
    let mut st = State::new();
    st.set_transaction_fee(Origin::Root, 50, &cfg).unwrap();
    assert_eq!(st.calculate_fee(10000), 50);
    assert_eq!(st.calculate_fee(199), 0);
    assert_eq!(st.calculate_fee(0), 0);
    st.set_transaction_fee(Origin::Root, 0, &cfg).unwrap();
    assert_eq!(st.calculate_fee(10000), 0);
    st.set_transaction_fee(Origin::Root, 10000, &cfg).unwrap();
    assert_eq!(st.calculate_fee(12345), 12345);
}
