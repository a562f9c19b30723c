use txledger::account::{Account, AccountError};

#[test]
fn test_deposit() {
    let amount = 1;
    let mut acc = Account::new(1);

    let result = acc.deposit(amount);
    assert_eq!(Ok(()), result);
    assert_eq!(amount, acc.total);
    assert_eq!(amount, acc.available);
    assert_eq!(0, acc.held);
}

#[test]
fn test_withdraw() {
    let amount = 2;
    let total = 4;
    let mut acc = Account::new(1);
    let _ = acc.deposit(total);

    let result = acc.withdraw(amount);
    assert_eq!(Ok(()), result);
    assert_eq!(total - amount, acc.total);
    assert_eq!(total - amount, acc.available);
    assert_eq!(0, acc.held);
    assert!(!acc.locked);
}

#[test]
fn test_withdraw_err() {
    let amount = 5;
    let total = 4;
    let mut acc = Account::new(1);
    let _ = acc.deposit(total);

    let result = acc.withdraw(amount);
    assert_eq!(Err(AccountError::Withdraw.into()), result);

    assert_eq!(total, acc.total);
    assert_eq!(total, acc.available);
    assert_eq!(0, acc.held);
    assert!(!acc.locked);
}

#[test]
fn test_dispute_deposit() {
    let amount = 2;
    let total = 4;
    let mut acc = Account::new(1);
    let _ = acc.deposit(total);
    let result = acc.dispute(amount, true);
    assert_eq!(Ok(()), result);
    assert_eq!(total, acc.total);
    assert_eq!(total - amount, acc.available);
    assert_eq!(amount, acc.held);
    assert!(!acc.locked);
}

#[test]
fn test_dispute_withdraw() {
    let amount = 2;
    let total = 1;
    let mut acc = Account::new(1);
    let _ = acc.deposit(total);
    let result = acc.dispute(amount, false);
    assert_eq!(Ok(()), result);
    assert_eq!(total + amount, acc.total);
    assert_eq!(total, acc.available);
    assert_eq!(amount, acc.held);
    assert!(!acc.locked);
}

#[test]
fn test_dispute_err() {
    let amount = 5;
    let total = 4;
    let mut acc = Account::new(1);
    let _ = acc.deposit(total);

    let result = acc.dispute(amount, true);
    assert_eq!(Err(AccountError::Dispute.into()), result);
    assert_eq!(total, acc.total);
    assert_eq!(total, acc.available);
    assert_eq!(0, acc.held);
    assert!(!acc.locked);
}

#[test]
fn test_resolve() {
    let deposit = 4;
    let withdraw = 2;
    let mut acc = Account::new(1);
    let _ = acc.deposit(deposit);
    let _ = acc.withdraw(withdraw);
    let _ = acc.dispute(withdraw, false);
    let result = acc.resolve(withdraw);
    assert_eq!(Ok(()), result);
    assert_eq!(deposit, acc.total);
    assert_eq!(deposit, acc.available);
    assert_eq!(0, acc.held);
    assert!(!acc.locked);
}

#[test]
fn test_resolve_err() {
    let resolve = 5;
    let dispute = 3;
    let total = 4;
    let mut acc = Account::new(1);
    let _ = acc.deposit(total);
    let _ = acc.dispute(dispute, true);
    let result = acc.resolve(resolve);
    assert_eq!(Err(AccountError::Resolve.into()), result);
    assert_eq!(total, acc.total);
    assert_eq!(total - dispute, acc.available);
    assert_eq!(dispute, acc.held);
    assert!(!acc.locked);
}

#[test]
fn test_chargeback() {
    let amount = 2;
    let total = 4;
    let mut acc = Account::new(1);
    let _ = acc.deposit(total);
    let _ = acc.dispute(amount, true);
    let _ = acc.resolve(amount);
    let result = acc.chargeback(amount);
    assert_eq!(Ok(()), result);
    assert_eq!(total - amount, acc.total);
    assert_eq!(total - amount, acc.available);
    assert_eq!(0, acc.held);
    assert!(acc.locked);
}

#[test]
fn test_chargeback_err() {
    let resolve = 5;
    let dispute = 3;
    let total = 4;
    let mut acc = Account::new(1);
    let _ = acc.deposit(total);
    let _ = acc.dispute(dispute, true);
    let result = acc.chargeback(resolve);
    assert_eq!(Err(AccountError::Chargeback.into()), result);
    assert_eq!(total, acc.total);
    assert_eq!(total - dispute, acc.available);
    assert_eq!(dispute, acc.held);
    assert!(!acc.locked);
}
