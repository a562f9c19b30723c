//! The engine's guarantees, stated and proved once over the state machine
//! [`step`](crate::db::step), independent of any particular run.

use vstd::prelude::*;
use crate::account::Account;
use crate::db::{acc_or_new, record_ok, step, step_fits, tx_lookup, tx_store, DbView};
use crate::error::Error;
use crate::transaction::{Transaction, TransactionError, TransactionKind, TransactionState};

verus! {

/// Inserting a well-formed account under its own client id keeps the
/// ledger's part of the invariant.
proof fn lemma_accounts_inv_insert(m: Map<u16, Account>, c: u16, a: Account)
    requires
        forall|c2: u16|
            m.contains_key(c2) ==> (#[trigger] m[c2]).wf() && m[c2].client_id == c2,
        a.wf(),
        a.client_id == c,
    ensures
        forall|c2: u16|
            m.insert(c, a).contains_key(c2) ==> (#[trigger] m.insert(c, a)[c2]).wf() && m.insert(
                c,
                a,
            )[c2].client_id == c2,
{
}

/// Filing a record that satisfies the record rules keeps the registry's
/// part of the invariant.
proof fn lemma_txs_inv_store(txs: Map<u16, Map<u32, Transaction>>, c: u16, rec: Transaction)
    requires
        forall|c2: u16, t2: u32|
            txs.contains_key(c2) && txs[c2].contains_key(t2) ==> record_ok(
                #[trigger] txs[c2][t2],
                c2,
                t2,
            ),
        record_ok(rec, c, rec.tx),
    ensures
        forall|c2: u16, t2: u32|
            tx_store(txs, c, rec).contains_key(c2) && tx_store(txs, c, rec)[c2].contains_key(t2)
                ==> record_ok(#[trigger] tx_store(txs, c, rec)[c2][t2], c2, t2),
{
    let txs2 = tx_store(txs, c, rec);
    assert forall|c2: u16, t2: u32|
        txs2.contains_key(c2) && txs2[c2].contains_key(t2) implies record_ok(
        #[trigger] txs2[c2][t2],
        c2,
        t2,
    ) by {
        if c2 == c {
            if t2 != rec.tx {
                assert(txs.contains_key(c2) && txs[c2].contains_key(t2));
            }
        } else {
            assert(txs.contains_key(c2) && txs[c2].contains_key(t2));
        }
    }
}

/// The central safety law: one step of the machine, taken on a state that
/// satisfies the invariant, with a validated amount and within the machine
/// limit, yields a state that satisfies the invariant again. In
/// particular, `total == available + held` holds of every account at all
/// times, exactly and with no drift.
pub proof fn lemma_step_preserves_inv(db: DbView, ev: Transaction)
    requires
        db.inv(),
        ev.amount matches Some(a) ==> a >= 0,
        step_fits(db, ev),
    ensures
        step(db, ev).0.inv(),
{
    let a0 = acc_or_new(db.accounts, ev.client_id);
    assert(a0.wf() && a0.client_id == ev.client_id);
    let (db2, r) = step(db, ev);
    match ev.kind {
        TransactionKind::Deposit => {
            if let Some(amt) = ev.amount {
                if a0.deposit_ok(amt) {
                    lemma_accounts_inv_insert(db.accounts, ev.client_id, a0.deposit_post(amt));
                    lemma_txs_inv_store(
                        db.txs,
                        ev.client_id,
                        Transaction { state: TransactionState::Completed, ..ev },
                    );
                } else {
                    lemma_accounts_inv_insert(db.accounts, ev.client_id, a0);
                }
            }
        },
        TransactionKind::Withdrawal => {
            if let Some(amt) = ev.amount {
                if a0.withdraw_ok(amt) {
                    lemma_accounts_inv_insert(db.accounts, ev.client_id, a0.withdraw_post(amt));
                    lemma_txs_inv_store(
                        db.txs,
                        ev.client_id,
                        Transaction { state: TransactionState::Completed, ..ev },
                    );
                } else {
                    lemma_accounts_inv_insert(db.accounts, ev.client_id, a0);
                }
            }
        },
        TransactionKind::Dispute => {
            if ev.amount is None {
                if let Some(rec) = tx_lookup(db, ev.client_id, ev.tx) {
                    if rec.can_dispute_spec() {
                        let amt = rec.amount->0;
                        let dep = rec.kind is Deposit;
                        if a0.dispute_ok(amt, dep) {
                            lemma_accounts_inv_insert(
                                db.accounts,
                                ev.client_id,
                                a0.dispute_post(amt, dep),
                            );
                            lemma_txs_inv_store(
                                db.txs,
                                ev.client_id,
                                Transaction { state: TransactionState::Dispute, ..rec },
                            );
                        } else {
                            lemma_accounts_inv_insert(db.accounts, ev.client_id, a0);
                        }
                    }
                }
            }
        },
        TransactionKind::Resolve => {
            if ev.amount is None {
                if let Some(rec) = tx_lookup(db, ev.client_id, ev.tx) {
                    if rec.can_resolve_spec() {
                        let amt = rec.amount->0;
                        if a0.resolve_ok(amt) {
                            lemma_accounts_inv_insert(
                                db.accounts,
                                ev.client_id,
                                a0.resolve_post(amt),
                            );
                            lemma_txs_inv_store(
                                db.txs,
                                ev.client_id,
                                Transaction { state: TransactionState::Resolved, ..rec },
                            );
                        } else {
                            lemma_accounts_inv_insert(db.accounts, ev.client_id, a0);
                        }
                    }
                }
            }
        },
        TransactionKind::Chargeback => {
            if ev.amount is None {
                if let Some(rec) = tx_lookup(db, ev.client_id, ev.tx) {
                    if rec.can_chargeback_spec() {
                        let amt = rec.amount->0;
                        if a0.chargeback_ok(amt) {
                            lemma_accounts_inv_insert(
                                db.accounts,
                                ev.client_id,
                                a0.chargeback_post(amt),
                            );
                            lemma_txs_inv_store(
                                db.txs,
                                ev.client_id,
                                Transaction { state: TransactionState::Chargeback, ..rec },
                            );
                        } else {
                            lemma_accounts_inv_insert(db.accounts, ev.client_id, a0);
                        }
                    }
                }
            }
        },
    }
}

/// Once an account is locked it stays locked for the remainder of the
/// run: no event, of any kind, ever unlocks it or removes it.
pub proof fn lemma_lock_is_permanent(db: DbView, ev: Transaction, c: u16)
    requires
        db.inv(),
        db.accounts.contains_key(c),
        db.accounts[c].locked,
    ensures
        step(db, ev).0.accounts.contains_key(c),
        step(db, ev).0.accounts[c].locked,
{
}

/// The operations that debit the available funds — a withdrawal, a dispute
/// of a deposit, a chargeback — are refused rather than ever leave
/// `available` below zero.
pub proof fn lemma_available_never_negative(a: Account, amount: i64)
    requires
        a.wf(),
        amount >= 0,
    ensures
        a.withdraw_ok(amount) ==> a.withdraw_post(amount).available >= 0,
        a.dispute_ok(amount, true) ==> a.dispute_post(amount, true).available >= 0,
        a.chargeback_ok(amount) ==> a.chargeback_post(amount).available >= 0,
{
}

/// The operations that release or reverse held funds — a resolve, a
/// chargeback — are refused rather than ever leave `held` below zero.
pub proof fn lemma_held_never_negative(a: Account, amount: i64)
    requires
        a.wf(),
        amount >= 0,
    ensures
        a.resolve_ok(amount) ==> a.resolve_post(amount).held >= 0,
        a.chargeback_ok(amount) ==> a.chargeback_post(amount).held == a.held && a.held >= 0,
{
}

/// A successful dispute increases `held` by exactly the disputed amount,
/// and decreases `available` by the same amount when the disputed
/// transaction was a deposit.
pub proof fn lemma_dispute_moves_exact_amount(a: Account, amount: i64, is_deposit: bool)
    requires
        a.wf(),
        amount >= 0,
        !is_deposit ==> a.available + a.held + amount <= i64::MAX,
    ensures
        a.dispute_ok(amount, is_deposit) ==> a.dispute_post(amount, is_deposit).held == a.held
            + amount,
        a.dispute_ok(amount, true) ==> a.dispute_post(amount, true).available == a.available
            - amount,
        !is_deposit && a.dispute_ok(amount, is_deposit) ==> a.dispute_post(
            amount,
            is_deposit,
        ).available == a.available,
{
}

/// A stored record's amount — and its kind, client and transaction id —
/// are immutable once set: an event only ever changes a record's `state`,
/// and only a deposit or a withdrawal, at its own key, can replace a
/// record outright.
pub proof fn lemma_record_amount_immutable(db: DbView, ev: Transaction, c: u16, t: u32)
    requires
        db.inv(),
        tx_lookup(db, c, t) is Some,
        (ev.kind is Deposit || ev.kind is Withdrawal) ==> !(c == ev.client_id && t == ev.tx),
    ensures
        tx_lookup(step(db, ev).0, c, t) is Some,
        tx_lookup(step(db, ev).0, c, t)->0.amount == tx_lookup(db, c, t)->0.amount,
        tx_lookup(step(db, ev).0, c, t)->0.kind == tx_lookup(db, c, t)->0.kind,
        tx_lookup(step(db, ev).0, c, t)->0.client_id == tx_lookup(db, c, t)->0.client_id,
        tx_lookup(step(db, ev).0, c, t)->0.tx == tx_lookup(db, c, t)->0.tx,
{
}

/// Disputing the same transaction twice in a row fails the second time:
/// the first success has moved the record out of `Completed`, so the
/// second dispute is refused as being in an invalid state.
pub proof fn lemma_dispute_not_idempotent(db: DbView, ev: Transaction)
    requires
        db.inv(),
        ev.kind is Dispute,
        step(db, ev).1 is Ok,
    ensures
        step(step(db, ev).0, ev).1 == Err::<(), Error>(
            Error::Transaction(TransactionError::Dispute),
        ),
{
    let rec = tx_lookup(db, ev.client_id, ev.tx)->0;
    assert(rec.tx == ev.tx);
    let db2 = step(db, ev).0;
    assert(tx_lookup(db2, ev.client_id, ev.tx) == Some(
        Transaction { state: TransactionState::Dispute, ..rec },
    ));
}

} // verus!
