use velopay::config::{Config, Origin};
use velopay::errors::OpError;
use velopay::token::State;

fn cfg() -> Config {
    Config {
        daily_limit: 1000,
        suspicious_threshold: u64::MAX,
        max_reason_len: 256,
        blocks_per_period: 100,
        max_fee_bps: u32::MAX,
    }
}

/// A state with accounts 1 and 2 KYC-verified, account 3 as mint
/// authority, and `funds` freshly minted to account 1.
fn funded_state(funds: u64) -> State {
    let mut st = State::new();
    st.kyc.set_verifier(Origin::Root, 900).unwrap();
    for account in [1u64, 2u64] {
        st.kyc.submit_kyc(Origin::Signed(account), 7, 1).unwrap();
        st.kyc.verify_kyc(Origin::Signed(900), account, 2).unwrap();
    }
    st.set_mint_authority(Origin::Root, 3).unwrap();
    if funds > 0 {
        st.request_mint(Origin::Signed(1), funds, 3).unwrap();
        st.approve_mint(Origin::Signed(3), 0, 4).unwrap();
    }
    st
}

#[test]
fn transfer_validation_errors() {
    let cfg = cfg();
    let mut st = funded_state(500);
    assert_eq!(
        st.transfer(Origin::Root, 2, 10, 10, &cfg),
        Err(OpError::Unauthorized)
    );
    assert_eq!(
        st.transfer(Origin::Signed(1), 2, 0, 10, &cfg),
        Err(OpError::InvalidAmount)
    );
    assert_eq!(
        st.transfer(Origin::Signed(1), 1, 10, 10, &cfg),
        Err(OpError::InvalidAmount)
    );
    assert_eq!(
        st.transfer(Origin::Signed(5), 2, 10, 10, &cfg),
        Err(OpError::KycNotVerified)
    );
    assert_eq!(
        st.transfer(Origin::Signed(1), 5, 10, 10, &cfg),
        Err(OpError::KycNotVerified)
    );
    assert_eq!(
        st.transfer(Origin::Signed(1), 2, 501, 10, &cfg),
        Err(OpError::InsufficientBalance)
    );
    st.pause(Origin::Root).unwrap();
    assert_eq!(
        st.transfer(Origin::Signed(1), 2, 10, 10, &cfg),
        Err(OpError::SystemPaused)
    );
}

#[test]
fn transfer_rolls_back_when_the_receiver_check_fails() {
    let cfg = cfg();
    let mut st = funded_state(500);
    // The receiver has already used 900 of its 1000-per-period budget.
    st.compliance.check_transaction(2, 900, 10, &cfg).unwrap();
    let before_sender = st.ledger.record_of(1);
    let before_dest = st.ledger.record_of(2);

    // The sender's check would pass and charge its budget; the
    // receiver's fails.  The operation must leave no trace at all.
    assert_eq!(
        st.transfer(Origin::Signed(1), 2, 200, 10, &cfg),
        Err(OpError::ComplianceCheckFailed)
    );
    assert_eq!(st.compliance.volume.get(1, 0), 0);
    assert_eq!(st.compliance.volume.get(2, 0), 900);
    assert_eq!(st.ledger.record_of(1), before_sender);
    assert_eq!(st.ledger.record_of(2), before_dest);
}

#[test]
fn transfer_charges_both_volume_budgets() {
    let cfg = cfg();
    let mut st = funded_state(500);
    st.transfer(Origin::Signed(1), 2, 200, 10, &cfg).unwrap();
    assert_eq!(st.compliance.volume.get(1, 0), 200);
    assert_eq!(st.compliance.volume.get(2, 0), 200);
}

#[test]
fn transfer_fails_when_the_sender_is_flagged() {
    let cfg = cfg();
    let mut st = funded_state(500);
    st.compliance.set_compliance_officer(Origin::Root, 5).unwrap();
    st.compliance.flag_account(Origin::Signed(5), 1).unwrap();
    assert_eq!(
        st.transfer(Origin::Signed(1), 2, 10, 10, &cfg),
        Err(OpError::ComplianceCheckFailed)
    );
    assert_eq!(st.ledger.record_of(1).free, 500);
    assert_eq!(st.ledger.record_of(2).free, 0);
}

#[test]
fn transfer_without_fee_needs_no_authority() {
    let cfg = cfg();
    let mut st = State::new();
    st.kyc.set_verifier(Origin::Root, 900).unwrap();
    for account in [1u64, 2u64] {
        st.kyc.submit_kyc(Origin::Signed(account), 7, 1).unwrap();
        st.kyc.verify_kyc(Origin::Signed(900), account, 2).unwrap();
    }
    // With the default fee rate of zero no collector is consulted.
    st.set_mint_authority(Origin::Root, 3).unwrap();
    st.request_mint(Origin::Signed(1), 300, 3).unwrap();
    st.approve_mint(Origin::Signed(3), 0, 4).unwrap();
    st.transfer(Origin::Signed(1), 2, 100, 10, &cfg).unwrap();
    assert_eq!(st.ledger.record_of(1).free, 200);
    assert_eq!(st.ledger.record_of(2).free, 100);
}

#[test]
fn transfer_fee_to_the_destination_accumulates() {
    let cfg = cfg();
    let mut st = State::new();
    st.kyc.set_verifier(Origin::Root, 900).unwrap();
    for account in [1u64, 2u64] {
        st.kyc.submit_kyc(Origin::Signed(account), 7, 1).unwrap();
        st.kyc.verify_kyc(Origin::Signed(900), account, 2).unwrap();
    }
    // The fee collector is the destination itself.
    st.set_mint_authority(Origin::Root, 2).unwrap();
    st.set_transaction_fee(Origin::Root, 100, &cfg).unwrap();
    st.request_mint(Origin::Signed(1), 505, 3).unwrap();
    st.approve_mint(Origin::Signed(2), 0, 4).unwrap();
    // amount 500, fee 1% = 5: the destination collects both.
    st.transfer(Origin::Signed(1), 2, 500, 10, &cfg).unwrap();
    assert_eq!(st.ledger.record_of(1).free, 0);
    assert_eq!(st.ledger.record_of(2).free, 505);
}

#[test]
fn transfer_fee_back_to_the_sender() {
    let cfg = cfg();
    let mut st = State::new();
    st.kyc.set_verifier(Origin::Root, 900).unwrap();
    for account in [1u64, 2u64] {
        st.kyc.submit_kyc(Origin::Signed(account), 7, 1).unwrap();
        st.kyc.verify_kyc(Origin::Signed(900), account, 2).unwrap();
    }
    // The fee collector is the sender itself: the fee nets to nothing.
    st.set_mint_authority(Origin::Root, 1).unwrap();
    st.set_transaction_fee(Origin::Root, 100, &cfg).unwrap();
    st.request_mint(Origin::Signed(1), 505, 3).unwrap();
    st.approve_mint(Origin::Signed(1), 0, 4).unwrap();
    st.transfer(Origin::Signed(1), 2, 500, 10, &cfg).unwrap();
    assert_eq!(st.ledger.record_of(1).free, 5);
    assert_eq!(st.ledger.record_of(2).free, 500);
}

#[test]
fn transfer_fee_that_cannot_be_represented_fails() {
    let mut cfg = cfg();
    cfg.daily_limit = u64::MAX;
    let mut st = funded_state(0);
    st.set_transaction_fee(Origin::Root, u32::MAX, &cfg).unwrap();
    // floor(u64::MAX * (2^32 - 1) / 10000) exceeds the balance domain.
    assert_eq!(
        st.transfer(Origin::Signed(1), 2, u64::MAX, 10, &cfg),
        Err(OpError::FeeCalculationFailed)
    );
}
