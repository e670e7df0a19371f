use ledger::account::{ClientAccount, ProcessingError};
use ledger::funds::Funds;

#[test]
fn deposit() {
    let mut client = ClientAccount {
        client: 1,
        available: Funds::zero(),
        held: Funds::zero(),
        total: Funds::zero(),
        locked: false,
    };

    assert!(client.deposit(1, Some(Funds::whole(10))).is_ok());

    assert_eq!(client.available, Funds::whole(10));
    assert_eq!(client.total, Funds::whole(10));
}

#[test]
fn withdraw() {
    let mut client = ClientAccount {
        client: 1,
        available: Funds::whole(10),
        held: Funds::zero(),
        total: Funds::whole(10),
        locked: false,
    };

    assert!(client.withdraw(1, Some(Funds::whole(5))).is_ok());

    assert_eq!(client.available, Funds::whole(5));
    assert_eq!(client.total, Funds::whole(5));
}

#[test]
fn withdraw_insufficient_funds() {
    let mut client = ClientAccount {
        client: 1,
        available: Funds::whole(1),
        held: Funds::zero(),
        total: Funds::whole(1),
        locked: false,
    };

    assert!(client.withdraw(1, Some(Funds::whole(5))).is_ok());

    assert_eq!(client.available, Funds::whole(1));
    assert_eq!(client.total, Funds::whole(1));
}

#[test]
fn new_account_is_zeroed() {
    let acc = ClientAccount::new(7);
    assert_eq!(acc.client, 7);
    assert_eq!(acc.available, Funds::zero());
    assert_eq!(acc.held, Funds::zero());
    assert_eq!(acc.total, Funds::zero());
    assert!(!acc.locked);
}

#[test]
fn deposit_without_amount_changes_nothing() {
    let mut acc = ClientAccount::new(1);
    assert_eq!(acc.deposit(1, None), Ok(()));
    assert_eq!(acc, ClientAccount::new(1));
}

#[test]
fn deposit_overflow_is_refused() {
    let mut acc = ClientAccount::new(1);
    assert_eq!(acc.deposit(1, Some(Funds::from_units(i64::MAX))), Ok(()));
    let before = acc;
    assert_eq!(acc.deposit(2, Some(Funds::from_units(1))), Err(ProcessingError::Overflow));
    assert_eq!(acc, before);
}

#[test]
fn dispute_without_amount_is_an_error() {
    let mut acc = ClientAccount::new(1);
    assert_eq!(acc.dispute(1, None), Err(ProcessingError::MissingAmount));
    assert_eq!(acc.resolve(1, None), Err(ProcessingError::MissingAmount));
    assert_eq!(acc.chargeback(1, None), Err(ProcessingError::MissingAmount));
    assert_eq!(acc, ClientAccount::new(1));
}

#[test]
fn account_transitions_move_funds() {
    let mut acc = ClientAccount::new(1);
    assert_eq!(acc.deposit(1, Some(Funds::whole(10))), Ok(()));
    assert_eq!(acc.dispute(1, Some(Funds::whole(4))), Ok(()));
    assert_eq!(acc.available, Funds::whole(6));
    assert_eq!(acc.held, Funds::whole(4));
    assert_eq!(acc.total, Funds::whole(10));
    assert_eq!(acc.resolve(1, Some(Funds::whole(4))), Ok(()));
    assert_eq!(acc.available, Funds::whole(10));
    assert_eq!(acc.held, Funds::zero());
    assert_eq!(acc.dispute(1, Some(Funds::whole(4))), Ok(()));
    assert_eq!(acc.chargeback(1, Some(Funds::whole(4))), Ok(()));
    assert_eq!(acc.available, Funds::whole(6));
    assert_eq!(acc.held, Funds::zero());
    assert_eq!(acc.total, Funds::whole(6));
    assert!(acc.locked);
}

#[test]
fn funds_from_scaled() {
    assert_eq!(Funds::from_scaled(12345, 2), Some(Funds::from_units(1234500)));
    assert_eq!(Funds::from_scaled(7, 4), Some(Funds::from_units(7)));
    assert_eq!(Funds::from_scaled(-15, 1), Some(Funds::from_units(-15000)));
    assert_eq!(Funds::from_scaled(1, 5), None);
    assert_eq!(Funds::from_scaled(i64::MAX as i128, 0), None);
    assert_eq!(Funds::from_scaled(i128::MAX, 4), None);
}

#[test]
fn funds_checked_arithmetic() {
    assert_eq!(Funds::whole(2).checked_add(Funds::whole(3)), Some(Funds::whole(5)));
    assert_eq!(Funds::whole(2).checked_sub(Funds::whole(3)), Some(Funds::from_units(-10000)));
    assert_eq!(Funds::from_units(i64::MAX).checked_add(Funds::from_units(1)), None);
    assert_eq!(Funds::from_units(i64::MIN).checked_sub(Funds::from_units(1)), None);
    assert_eq!(Funds::whole(3).units(), 30000);
}
