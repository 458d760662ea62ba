use velopay::config::{Config, Origin};
use velopay::errors::OpError;
use velopay::kyc::KycStatus;
use velopay::token::{MintRequestStatus, State};

fn cfg() -> Config {
    Config {
        daily_limit: u64::MAX,
        suspicious_threshold: u64::MAX,
        max_reason_len: 256,
        blocks_per_period: 100,
        max_fee_bps: 10000,
    }
}

fn verify_account(st: &mut State, account: u64) {
    if st.kyc.verifier.is_none() {
        st.kyc.set_verifier(Origin::Root, 900).unwrap();
    }
    st.kyc.submit_kyc(Origin::Signed(account), 0xF00D, 1).unwrap();
    st.kyc.verify_kyc(Origin::Signed(900), account, 2).unwrap();
}

#[test]
fn kyc_lifecycle() {
    let mut st = State::new();
    st.kyc.set_verifier(Origin::Root, 900).unwrap();
    assert!(!st.kyc.is_verified(1));

    st.kyc.submit_kyc(Origin::Signed(1), 0xF00D, 5).unwrap();
    let rec = st.kyc.kyc_data(1).unwrap();
    assert_eq!(rec.status, KycStatus::Pending);
    assert_eq!(rec.document_hash, 0xF00D);
    assert_eq!(rec.submitted_at, 5);
    assert_eq!(rec.verified_at, None);

    // A pending record blocks resubmission.
    assert_eq!(
        st.kyc.submit_kyc(Origin::Signed(1), 0xF00D, 6),
        Err(OpError::KycAlreadySubmitted)
    );

    st.kyc.verify_kyc(Origin::Signed(900), 1, 7).unwrap();
    assert!(st.kyc.is_verified(1));
    assert_eq!(st.kyc.kyc_data(1).unwrap().verified_at, Some(7));

    // A verified record blocks resubmission too.
    assert_eq!(
        st.kyc.submit_kyc(Origin::Signed(1), 0xF00D, 8),
        Err(OpError::KycAlreadySubmitted)
    );
}

#[test]
fn kyc_rejection_allows_resubmission() {
    let mut st = State::new();
    st.kyc.set_verifier(Origin::Root, 900).unwrap();
    st.kyc.submit_kyc(Origin::Signed(1), 1, 5).unwrap();
    st.kyc.reject_kyc(Origin::Signed(900), 1).unwrap();
    assert_eq!(st.kyc.kyc_data(1).unwrap().status, KycStatus::Rejected);
    assert!(!st.kyc.is_verified(1));
    // Rejected is the one status that permits a fresh submission.
    st.kyc.submit_kyc(Origin::Signed(1), 2, 6).unwrap();
    assert_eq!(st.kyc.kyc_data(1).unwrap().status, KycStatus::Pending);
    assert_eq!(st.kyc.kyc_data(1).unwrap().document_hash, 2);
}

#[test]
fn kyc_gate_errors() {
    let mut st = State::new();
    assert_eq!(
        st.kyc.verify_kyc(Origin::Signed(900), 1, 5),
        Err(OpError::NotVerifier)
    );
    st.kyc.set_verifier(Origin::Root, 900).unwrap();
    assert_eq!(
        st.kyc.verify_kyc(Origin::Signed(5), 1, 5),
        Err(OpError::NotVerifier)
    );
    assert_eq!(
        st.kyc.verify_kyc(Origin::Signed(900), 900, 5),
        Err(OpError::CannotVerifySelf)
    );
    assert_eq!(
        st.kyc.verify_kyc(Origin::Signed(900), 1, 5),
        Err(OpError::KycNotSubmitted)
    );
    st.kyc.submit_kyc(Origin::Signed(1), 1, 5).unwrap();
    st.kyc.verify_kyc(Origin::Signed(900), 1, 6).unwrap();
    assert_eq!(
        st.kyc.verify_kyc(Origin::Signed(900), 1, 7),
        Err(OpError::InvalidKycStatus)
    );
    assert_eq!(st.kyc.set_verifier(Origin::Signed(1), 2), Err(OpError::Unauthorized));
}

#[test]
fn pause_blocks_requests_but_not_rejections() {
    let mut st = State::new();
    verify_account(&mut st, 1);
    st.set_mint_authority(Origin::Root, 2).unwrap();
    st.request_mint(Origin::Signed(1), 100, 3).unwrap();

    st.pause(Origin::Root).unwrap();
    assert_eq!(
        st.request_mint(Origin::Signed(1), 100, 4),
        Err(OpError::SystemPaused)
    );
    assert_eq!(
        st.request_burn(Origin::Signed(1), 100, 4),
        Err(OpError::SystemPaused)
    );
    assert_eq!(
        st.approve_mint(Origin::Signed(2), 0, 4),
        Err(OpError::SystemPaused)
    );
    // Rejection stays possible while paused.
    st.reject_mint(Origin::Signed(2), 0, 4).unwrap();
    assert_eq!(
        st.mint_request(0).unwrap().status,
        MintRequestStatus::Rejected
    );

    st.unpause(Origin::Root).unwrap();
    st.request_mint(Origin::Signed(1), 100, 5).unwrap();
    assert_eq!(st.mint_request(1).unwrap().amount, 100);
}

#[test]
fn mint_authority_errors() {
    let mut st = State::new();
    verify_account(&mut st, 1);
    st.request_mint(Origin::Signed(1), 100, 3).unwrap();

    assert_eq!(
        st.approve_mint(Origin::Signed(2), 0, 4),
        Err(OpError::NoMintAuthority)
    );
    st.set_mint_authority(Origin::Root, 2).unwrap();
    assert_eq!(
        st.approve_mint(Origin::Signed(9), 0, 4),
        Err(OpError::NotMintAuthority)
    );
    assert_eq!(
        st.approve_mint(Origin::Signed(2), 99, 4),
        Err(OpError::MintRequestNotFound)
    );
    st.approve_mint(Origin::Signed(2), 0, 4).unwrap();
    assert_eq!(
        st.approve_mint(Origin::Signed(2), 0, 5),
        Err(OpError::InvalidMintRequestStatus)
    );
    assert_eq!(
        st.reject_mint(Origin::Signed(2), 0, 5),
        Err(OpError::InvalidMintRequestStatus)
    );
}

#[test]
fn burn_authority_errors() {
    let mut st = State::new();
    verify_account(&mut st, 1);
    st.set_mint_authority(Origin::Root, 2).unwrap();
    st.request_mint(Origin::Signed(1), 1000, 3).unwrap();
    st.approve_mint(Origin::Signed(2), 0, 4).unwrap();
    st.request_burn(Origin::Signed(1), 400, 5).unwrap();

    assert_eq!(
        st.approve_burn(Origin::Signed(3), 0, 6),
        Err(OpError::NoBurnAuthority)
    );
    st.set_burn_authority(Origin::Root, 3).unwrap();
    assert_eq!(
        st.approve_burn(Origin::Signed(9), 0, 6),
        Err(OpError::NotBurnAuthority)
    );
    assert_eq!(
        st.approve_burn(Origin::Signed(3), 99, 6),
        Err(OpError::BurnRequestNotFound)
    );
    st.approve_burn(Origin::Signed(3), 0, 6).unwrap();
    assert_eq!(
        st.approve_burn(Origin::Signed(3), 0, 7),
        Err(OpError::InvalidBurnRequestStatus)
    );
    assert_eq!(
        st.reject_burn(Origin::Signed(3), 0, 7),
        Err(OpError::InvalidBurnRequestStatus)
    );
}

#[test]
fn request_validation_errors() {
    let mut st = State::new();
    assert_eq!(st.request_mint(Origin::Root, 1, 3), Err(OpError::Unauthorized));
    assert_eq!(
        st.request_mint(Origin::Signed(1), 0, 3),
        Err(OpError::InvalidAmount)
    );
    assert_eq!(
        st.request_mint(Origin::Signed(1), 1, 3),
        Err(OpError::KycNotVerified)
    );
    verify_account(&mut st, 1);
    assert_eq!(
        st.request_burn(Origin::Signed(1), 50, 3),
        Err(OpError::InsufficientBalance)
    );
    assert_eq!(st.pause(Origin::Signed(1)), Err(OpError::Unauthorized));
    assert_eq!(st.unpause(Origin::Signed(1)), Err(OpError::Unauthorized));
}

#[test]
fn fee_rate_is_bounded_by_configuration() {
    let cfg = cfg();
    let mut st = State::new();
    assert_eq!(
        st.set_transaction_fee(Origin::Signed(1), 10, &cfg),
        Err(OpError::Unauthorized)
    );
    assert_eq!(
        st.set_transaction_fee(Origin::Root, 10001, &cfg),
        Err(OpError::Overflow)
    );
    st.set_transaction_fee(Origin::Root, 10000, &cfg).unwrap();
    assert_eq!(st.fee_bps, 10000);
}

#[test]
fn supply_follows_completed_mints_and_burns() {
    let mut st = State::new();
    verify_account(&mut st, 1);
    verify_account(&mut st, 2);
    st.set_mint_authority(Origin::Root, 3).unwrap();
    st.set_burn_authority(Origin::Root, 4).unwrap();

    st.request_mint(Origin::Signed(1), 700, 3).unwrap();
    st.request_mint(Origin::Signed(2), 300, 3).unwrap();
    assert_eq!(st.ledger.total_supply, 0);
    st.approve_mint(Origin::Signed(3), 0, 4).unwrap();
    assert_eq!(st.ledger.total_supply, 700);
    st.approve_mint(Origin::Signed(3), 1, 4).unwrap();
    assert_eq!(st.ledger.total_supply, 1000);

    st.request_burn(Origin::Signed(1), 200, 5).unwrap();
    st.request_burn(Origin::Signed(2), 100, 5).unwrap();
    st.approve_burn(Origin::Signed(4), 0, 6).unwrap();
    assert_eq!(st.ledger.total_supply, 800);
    st.reject_burn(Origin::Signed(4), 1, 6).unwrap();
    assert_eq!(st.ledger.total_supply, 800);
}
