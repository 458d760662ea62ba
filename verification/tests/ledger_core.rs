use velopay::errors::OpError;
use velopay::ledger::Ledger;

#[test]
fn balance_primitives_move_funds_exactly() {
    let mut l = Ledger::new();
    assert_eq!(l.record_of(1).free, 0);
    assert_eq!(l.record_of(1).reserved, 0);

    l.credit(1, 1000).unwrap();
    assert_eq!(l.record_of(1).free, 1000);

    l.reserve(1, 400).unwrap();
    assert_eq!(l.record_of(1).free, 600);
    assert_eq!(l.record_of(1).reserved, 400);

    l.release(1, 150).unwrap();
    assert_eq!(l.record_of(1).free, 750);
    assert_eq!(l.record_of(1).reserved, 250);

    l.slash_reserved(1, 250).unwrap();
    assert_eq!(l.record_of(1).free, 750);
    assert_eq!(l.record_of(1).reserved, 0);

    l.debit(1, 50).unwrap();
    assert_eq!(l.record_of(1).free, 700);

    l.move_free(1, 2, 300).unwrap();
    assert_eq!(l.record_of(1).free, 400);
    assert_eq!(l.record_of(2).free, 300);

    // The primitives never touch the supply counter.
    assert_eq!(l.total_supply, 0);
}

#[test]
fn balance_primitive_errors() {
    let mut l = Ledger::new();
    l.credit(1, 100).unwrap();
    assert_eq!(l.debit(1, 101), Err(OpError::InsufficientBalance));
    assert_eq!(l.reserve(1, 101), Err(OpError::InsufficientBalance));
    assert_eq!(l.move_free(1, 2, 101), Err(OpError::InsufficientBalance));
    assert_eq!(
        l.slash_reserved(1, 1),
        Err(OpError::InsufficientReservedBalance)
    );
    assert_eq!(l.release(1, 1), Err(OpError::InsufficientReservedBalance));
    // A failed call leaves everything as it was.
    assert_eq!(l.record_of(1).free, 100);
    assert_eq!(l.record_of(1).reserved, 0);
}

#[test]
fn balance_primitives_refuse_overflow() {
    let mut l = Ledger::new();
    l.credit(1, u64::MAX).unwrap();
    assert_eq!(l.credit(1, 1), Err(OpError::Overflow));
    l.credit(2, 10).unwrap();
    assert_eq!(l.move_free(2, 1, 10), Err(OpError::Overflow));
    l.reserve(1, 5).unwrap();
    l.credit(1, 5).unwrap();
    assert_eq!(l.record_of(1).free, u64::MAX);
    assert_eq!(l.record_of(1).reserved, 5);
    assert_eq!(l.release(1, 5), Err(OpError::Overflow));

    let mut m = Ledger::new();
    m.credit(3, u64::MAX).unwrap();
    m.reserve(3, u64::MAX).unwrap();
    assert_eq!(m.record_of(3).reserved, u64::MAX);
    m.credit(3, 1).unwrap();
    assert_eq!(m.reserve(3, 1), Err(OpError::Overflow));
}

#[test]
fn move_onto_the_same_account_changes_nothing() {
    let mut l = Ledger::new();
    l.credit(1, 100).unwrap();
    l.move_free(1, 1, 60).unwrap();
    assert_eq!(l.record_of(1).free, 100);
    assert_eq!(l.move_free(1, 1, 101), Err(OpError::InsufficientBalance));
}
