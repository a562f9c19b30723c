use txledger::account::AccountError;
use txledger::db::Db;
use txledger::transaction::{Transaction, TransactionError, TransactionKind, TransactionState};

const CLIENT_ID: u16 = 1;
const DE_ID: u32 = 1;
const WI_ID: u32 = 2;

fn get_deposit_tx() -> Transaction {
    Transaction {
        amount: Some(4),
        client_id: CLIENT_ID,
        tx: DE_ID,
        state: TransactionState::Processing,
        kind: TransactionKind::Deposit,
    }
}

fn get_withdraw_tx() -> Transaction {
    Transaction {
        amount: Some(1),
        client_id: CLIENT_ID,
        tx: WI_ID,
        state: TransactionState::Processing,
        kind: TransactionKind::Withdrawal,
    }
}

fn get_dispute_tx() -> Transaction {
    Transaction {
        amount: None,
        client_id: CLIENT_ID,
        tx: WI_ID,
        state: TransactionState::Processing,
        kind: TransactionKind::Dispute,
    }
}

fn get_resolve_tx() -> Transaction {
    Transaction {
        amount: None,
        client_id: CLIENT_ID,
        tx: WI_ID,
        state: TransactionState::Processing,
        kind: TransactionKind::Resolve,
    }
}

fn get_chargeback_tx() -> Transaction {
    Transaction {
        amount: None,
        client_id: CLIENT_ID,
        tx: WI_ID,
        state: TransactionState::Processing,
        kind: TransactionKind::Chargeback,
    }
}

fn transactions_len(db: &Db) -> usize {
    db.transactions().get(&CLIENT_ID).map(|t| t.len()).unwrap_or(0)
}

#[test]
fn test_deposit_process() {
    let tx = get_deposit_tx();
    assert!(tx.is_valid());
    let mut db = Db::default();
    db.clean();

    let result = db.process(tx);
    assert_eq!(Ok(()), result);
    let txs = db.transactions();
    assert_eq!(1, txs.len());
    let acc_tx = txs.get(&CLIENT_ID);
    assert!(acc_tx.is_some());
    let acc_txs = acc_tx.unwrap();
    assert_eq!(1, acc_txs.len());
    let acc_tx = acc_txs.get(&DE_ID);
    assert!(acc_tx.is_some());
    let acc_tx = acc_tx.unwrap();
    assert_eq!(
        acc_tx,
        &get_deposit_tx().with_state(TransactionState::Completed)
    );
}

#[test]
fn test_withdraw_process() {
    let tx = get_deposit_tx();
    assert!(tx.is_valid());
    let mut db = Db::default();
    db.clean();

    let result = db.process(tx);
    assert_eq!(Ok(()), result);
    let tx = get_withdraw_tx();
    let result = db.process(tx);
    assert_eq!(Ok(()), result);
    let txs = db.transactions();
    assert_eq!(1, txs.len());
}

#[test]
fn test_withdraw_process_err() {
    let mut db = Db::default();
    db.clean();

    let tx = get_withdraw_tx();
    assert!(tx.is_valid());
    let result = db.process(tx);
    assert_eq!(Err(AccountError::Withdraw.into()), result);
    let txs = db.transactions();
    assert_eq!(0, txs.len());
}

#[test]
fn test_disput_process() {
    let mut db = Db::default();
    db.clean();

    let tx = get_deposit_tx();
    assert!(tx.is_valid());
    let result = db.process(tx);
    assert_eq!(Ok(()), result);
    assert_eq!(1, transactions_len(&db));
    let tx = get_withdraw_tx();
    assert!(tx.is_valid());
    let result = db.process(tx);
    assert_eq!(Ok(()), result);
    assert_eq!(2, transactions_len(&db));

    let tx = get_dispute_tx();
    assert!(tx.is_valid());
    let result = db.process(tx);
    assert_eq!(Ok(()), result);
    assert_eq!(2, transactions_len(&db));

    let tx = get_dispute_tx();
    assert!(tx.is_valid());
    let result = db.process(tx);
    assert_eq!(Err(TransactionError::Dispute.into()), result);
    assert_eq!(2, transactions_len(&db));
}

#[test]
fn test_resolve_process() {
    let mut db = Db::default();
    db.clean();

    let tx = get_deposit_tx();
    assert!(tx.is_valid());
    let result = db.process(tx);
    assert_eq!(Ok(()), result);
    assert_eq!(1, transactions_len(&db));
    let tx = get_withdraw_tx();
    assert!(tx.is_valid());
    let result = db.process(tx);
    assert_eq!(Ok(()), result);
    assert_eq!(2, transactions_len(&db));

    let tx = get_dispute_tx();
    assert!(tx.is_valid());
    let result = db.process(tx);
    assert_eq!(Ok(()), result);
    assert_eq!(2, transactions_len(&db));

    let tx = get_resolve_tx();
    assert!(tx.is_valid());
    let result = db.process(tx);
    assert_eq!(Ok(()), result);
    assert_eq!(2, transactions_len(&db));

    let tx = get_resolve_tx();
    assert!(tx.is_valid());
    let result = db.process(tx);
    assert_eq!(Err(TransactionError::Resolve.into()), result);
    assert_eq!(2, transactions_len(&db));
}

#[test]
fn test_chargeback_process() {
    let mut db = Db::default();
    db.clean();

    let tx = get_deposit_tx();
    assert!(tx.is_valid());
    let result = db.process(tx);
    assert_eq!(Ok(()), result);
    assert_eq!(1, transactions_len(&db));
    let tx = get_withdraw_tx();
    assert!(tx.is_valid());
    let result = db.process(tx);
    assert_eq!(Ok(()), result);
    assert_eq!(2, transactions_len(&db));

    let tx = get_dispute_tx();
    assert!(tx.is_valid());
    let result = db.process(tx);
    assert_eq!(Ok(()), result);
    assert_eq!(2, transactions_len(&db));

    let tx = get_chargeback_tx();
    assert!(tx.is_valid());
    let result = db.process(tx);
    assert_eq!(Ok(()), result);
    assert_eq!(2, transactions_len(&db));

    let tx = get_chargeback_tx();
    assert!(tx.is_valid());
    let result = db.process(tx);
    assert_eq!(Err(TransactionError::Chargeback.into()), result);
    assert_eq!(2, transactions_len(&db));
}
