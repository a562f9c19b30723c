//! The transaction processor with its account ledger and transaction
//! registry.
//!
//! [`Db`] owns the map of per-client accounts and the map of stored
//! transaction records. [`Db::process`] is the state machine that interprets
//! one event at a time: it dispatches on the event's kind and amount
//! presence, consults and updates the registry, and invokes the matching
//! balance operation on the ledger.
//!
//! The whole behaviour of one step is written down once, as the spec
//! function [`step`] over a [`DbView`] snapshot; `process` is proved to
//! return and mutate exactly what `step` says.

use vstd::prelude::*;
use std::collections::HashMap;
use crate::account::{Account, AccountError};
use crate::error::Error;
use crate::transaction::{Transaction, TransactionError, TransactionKind, TransactionState};

verus! {

broadcast use vstd::std_specs::hash::group_hash_axioms;

/// A mathematical snapshot of the whole engine state: per-client accounts,
/// and per-client stored transaction records keyed by transaction id.
#[verifier::ext_equal]
pub struct DbView {
    pub accounts: Map<u16, Account>,
    pub txs: Map<u16, Map<u32, Transaction>>,
}

impl DbView {
    /// The invariant the engine maintains across every processed event:
    /// every account is well formed and filed under its own client id, and
    /// every stored record is filed under its own (client, transaction)
    /// key, stems from a deposit or a withdrawal, carries a non-negative
    /// amount, and has been observed (it is never still `Processing`).
    pub open spec fn inv(self) -> bool {
        &&& forall|c: u16|
            self.accounts.contains_key(c) ==> {
                let a = #[trigger] self.accounts[c];
                a.wf() && a.client_id == c
            }
        &&& forall|c: u16, t: u32|
            self.txs.contains_key(c) && self.txs[c].contains_key(t) ==> record_ok(
                #[trigger] self.txs[c][t],
                c,
                t,
            )
    }
}

/// The rules every stored record obeys under its (client, transaction)
/// key: it is filed under its own ids, stems from a deposit or a
/// withdrawal, carries a non-negative amount, and has been observed.
pub open spec fn record_ok(rec: Transaction, c: u16, t: u32) -> bool {
    &&& rec.client_id == c
    &&& rec.tx == t
    &&& rec.amount is Some
    &&& rec.amount->0 >= 0
    &&& (rec.kind is Deposit || rec.kind is Withdrawal)
    &&& !(rec.state is Processing)
}

/// The account filed under `c`, or a fresh one: the ledger creates an
/// account lazily on the first event naming its client.
pub open spec fn acc_or_new(accounts: Map<u16, Account>, c: u16) -> Account {
    if accounts.contains_key(c) {
        accounts[c]
    } else {
        Account::new_spec(c)
    }
}

/// The stored record under the (client, transaction) key, if any.
pub open spec fn tx_lookup(db: DbView, c: u16, t: u32) -> Option<Transaction> {
    if db.txs.contains_key(c) && db.txs[c].contains_key(t) {
        Some(db.txs[c][t])
    } else {
        None
    }
}

/// The registry after `rec` is filed under client `c` and its own
/// transaction id, creating the client's inner map if absent.
pub open spec fn tx_store(txs: Map<u16, Map<u32, Transaction>>, c: u16, rec: Transaction) -> Map<
    u16,
    Map<u32, Transaction>,
> {
    let inner = if txs.contains_key(c) {
        txs[c]
    } else {
        Map::<u32, Transaction>::empty()
    };
    txs.insert(c, inner.insert(rec.tx, rec))
}

/// One deposit step: credit the amount and file the record as `Completed`,
/// or report the lock. Even a refused operation leaves the (possibly just
/// created) account in the ledger, untouched.
pub open spec fn step_deposit(db: DbView, ev: Transaction, amt: i64) -> (DbView, Result<
    (),
    Error,
>) {
    let a0 = acc_or_new(db.accounts, ev.client_id);
    if a0.deposit_ok(amt) {
        (
            DbView {
                accounts: db.accounts.insert(ev.client_id, a0.deposit_post(amt)),
                txs: tx_store(db.txs, ev.client_id, Transaction { state: TransactionState::Completed, ..ev }),
            },
            Ok(()),
        )
    } else {
        (
            DbView { accounts: db.accounts.insert(ev.client_id, a0), txs: db.txs },
            Err(Error::Account(AccountError::Locked)),
        )
    }
}

/// One withdrawal step: debit the amount and file the record as
/// `Completed`, or report the lock or the shortfall.
pub open spec fn step_withdraw(db: DbView, ev: Transaction, amt: i64) -> (DbView, Result<
    (),
    Error,
>) {
    let a0 = acc_or_new(db.accounts, ev.client_id);
    if a0.withdraw_ok(amt) {
        (
            DbView {
                accounts: db.accounts.insert(ev.client_id, a0.withdraw_post(amt)),
                txs: tx_store(db.txs, ev.client_id, Transaction { state: TransactionState::Completed, ..ev }),
            },
            Ok(()),
        )
    } else {
        (
            DbView { accounts: db.accounts.insert(ev.client_id, a0), txs: db.txs },
            if a0.locked {
                Err(Error::Account(AccountError::Locked))
            } else {
                Err(Error::Account(AccountError::Withdraw))
            },
        )
    }
}

/// One dispute step: the referenced record must exist (`NotFound`
/// otherwise) and be disputable (`InvalidDisputeState` otherwise); then the
/// stored amount is put on hold and the record moves to `Dispute`.
pub open spec fn step_dispute(db: DbView, ev: Transaction) -> (DbView, Result<(), Error>) {
    match tx_lookup(db, ev.client_id, ev.tx) {
        None => (db, Err(Error::Transaction(TransactionError::NotFound))),
        Some(rec) => if rec.can_dispute_spec() {
            let a0 = acc_or_new(db.accounts, ev.client_id);
            let amt = rec.amount->0;
            let dep = rec.kind is Deposit;
            if a0.dispute_ok(amt, dep) {
                (
                    DbView {
                        accounts: db.accounts.insert(ev.client_id, a0.dispute_post(amt, dep)),
                        txs: tx_store(db.txs, ev.client_id, Transaction { state: TransactionState::Dispute, ..rec }),
                    },
                    Ok(()),
                )
            } else {
                (
                    DbView { accounts: db.accounts.insert(ev.client_id, a0), txs: db.txs },
                    if a0.locked {
                        Err(Error::Account(AccountError::Locked))
                    } else {
                        Err(Error::Account(AccountError::Dispute))
                    },
                )
            }
        } else {
            (db, Err(Error::Transaction(TransactionError::Dispute)))
        },
    }
}

/// One resolve step. A missing record is silently a no-op success — the
/// asymmetry with the dispute step is kept deliberately, as the replayed
/// logs rely on it; a found record must be under dispute
/// (`InvalidResolveState` otherwise); then the stored amount moves from
/// held back to available and the record becomes `Resolved`.
pub open spec fn step_resolve(db: DbView, ev: Transaction) -> (DbView, Result<(), Error>) {
    match tx_lookup(db, ev.client_id, ev.tx) {
        None => (db, Ok(())),
        Some(rec) => if rec.can_resolve_spec() {
            let a0 = acc_or_new(db.accounts, ev.client_id);
            let amt = rec.amount->0;
            if a0.resolve_ok(amt) {
                (
                    DbView {
                        accounts: db.accounts.insert(ev.client_id, a0.resolve_post(amt)),
                        txs: tx_store(db.txs, ev.client_id, Transaction { state: TransactionState::Resolved, ..rec }),
                    },
                    Ok(()),
                )
            } else {
                (
                    DbView { accounts: db.accounts.insert(ev.client_id, a0), txs: db.txs },
                    if a0.locked {
                        Err(Error::Account(AccountError::Locked))
                    } else {
                        Err(Error::Account(AccountError::Resolve))
                    },
                )
            }
        } else {
            (db, Err(Error::Transaction(TransactionError::Resolve)))
        },
    }
}

/// One chargeback step. A missing record is silently a no-op success, as
/// for resolve; a found record must be under dispute
/// (`InvalidChargebackState` otherwise); then the stored amount is
/// reversed out of available, the record becomes `Chargeback`, and the
/// account is permanently locked.
pub open spec fn step_chargeback(db: DbView, ev: Transaction) -> (DbView, Result<(), Error>) {
    match tx_lookup(db, ev.client_id, ev.tx) {
        None => (db, Ok(())),
        Some(rec) => if rec.can_chargeback_spec() {
            let a0 = acc_or_new(db.accounts, ev.client_id);
            let amt = rec.amount->0;
            if a0.chargeback_ok(amt) {
                (
                    DbView {
                        accounts: db.accounts.insert(ev.client_id, a0.chargeback_post(amt)),
                        txs: tx_store(db.txs, ev.client_id, Transaction { state: TransactionState::Chargeback, ..rec }),
                    },
                    Ok(()),
                )
            } else {
                (
                    DbView { accounts: db.accounts.insert(ev.client_id, a0), txs: db.txs },
                    if a0.locked {
                        Err(Error::Account(AccountError::Locked))
                    } else {
                        Err(Error::Account(AccountError::Chargeback))
                    },
                )
            }
        } else {
            (db, Err(Error::Transaction(TransactionError::Chargeback)))
        },
    }
}

/// The whole state machine for one event: dispatch on (kind, amount
/// presence). Any combination not listed — a deposit or withdrawal without
/// an amount, a dispute-family event carrying one — is rejected as
/// `UnExpectedAmount` before anything is touched.
pub open spec fn step(db: DbView, ev: Transaction) -> (DbView, Result<(), Error>) {
    match ev.kind {
        TransactionKind::Deposit => match ev.amount {
            Some(amt) => step_deposit(db, ev, amt),
            None => (db, Err(Error::Transaction(TransactionError::UnExpectedAmount))),
        },
        TransactionKind::Withdrawal => match ev.amount {
            Some(amt) => step_withdraw(db, ev, amt),
            None => (db, Err(Error::Transaction(TransactionError::UnExpectedAmount))),
        },
        TransactionKind::Dispute => if ev.amount is Some {
            (db, Err(Error::Transaction(TransactionError::UnExpectedAmount)))
        } else {
            step_dispute(db, ev)
        },
        TransactionKind::Resolve => if ev.amount is Some {
            (db, Err(Error::Transaction(TransactionError::UnExpectedAmount)))
        } else {
            step_resolve(db, ev)
        },
        TransactionKind::Chargeback => if ev.amount is Some {
            (db, Err(Error::Transaction(TransactionError::UnExpectedAmount)))
        } else {
            step_chargeback(db, ev)
        },
    }
}

/// The machine-limit side condition of one step: the additions the event
/// would perform stay within the balance type. Only a deposit and a
/// dispute of a withdrawal-origin record ever enlarge a total, so only
/// those are constrained; every other event fits trivially.
pub open spec fn step_fits(db: DbView, ev: Transaction) -> bool {
    let a0 = acc_or_new(db.accounts, ev.client_id);
    match ev.kind {
        TransactionKind::Deposit => match ev.amount {
            Some(amt) => a0.available + a0.held + amt <= i64::MAX,
            None => true,
        },
        TransactionKind::Dispute => if ev.amount is None {
            match tx_lookup(db, ev.client_id, ev.tx) {
                Some(rec) => rec.can_dispute_spec() && !(rec.kind is Deposit) ==> a0.available
                    + a0.held + rec.amount->0 <= i64::MAX,
                None => true,
            }
        } else {
            true
        },
        _ => true,
    }
}

/// The engine: the account ledger and the transaction registry, both owned
/// here and mediated exclusively by [`Db::process`].
#[derive(Debug)]
pub struct Db {
    accounts: HashMap<u16, Account>,
    transactions: HashMap<u16, HashMap<u32, Transaction>>,
}

impl View for Db {
    type V = DbView;

    closed spec fn view(&self) -> DbView {
        DbView {
            accounts: self.accounts@,
            txs: self.transactions@.map_values(|m: HashMap<u32, Transaction>| m@),
        }
    }
}

impl Default for Db {
    /// An engine with no accounts and no records.
    fn default() -> (r: Self)
        ensures
            r@.accounts == Map::<u16, Account>::empty(),
            r@.txs == Map::<u16, Map<u32, Transaction>>::empty(),
            r@.inv(),
    {
        let r = Db { accounts: HashMap::new(), transactions: HashMap::new() };
        proof {
            assert(r@.txs =~= Map::<u16, Map<u32, Transaction>>::empty());
        }
        r
    }
}

impl Db {
    /// Processes one validated event in arrival order, mutating the ledger
    /// and the registry exactly as the state machine [`step`] prescribes,
    /// and returning the verdict `step` prescribes. A failed event leaves
    /// every balance and record as it was (at most a fresh zero-balance
    /// account appears).
    pub fn process(&mut self, tx: Transaction) -> (r: Result<(), Error>)
        requires
            old(self)@.inv(),
            tx.amount matches Some(a) ==> a >= 0,
            step_fits(old(self)@, tx),
        ensures
            final(self)@.inv(),
            final(self)@ == step(old(self)@, tx).0,
            r == step(old(self)@, tx).1,
    {
        let ghost pre = self@;
        proof {
            crate::laws::lemma_step_preserves_inv(pre, tx);
        }
        let ret = match tx.kind {
            TransactionKind::Deposit => match tx.amount {
                Some(amt) => match self.account_deposit(tx.client_id, amt) {
                    Ok(()) => {
                        self.set_tx(tx.client_id, tx.with_state(TransactionState::Completed));
                        Ok(())
                    },
                    Err(e) => Err(e),
                },
                None => Err(Error::Transaction(TransactionError::UnExpectedAmount)),
            },
            TransactionKind::Withdrawal => match tx.amount {
                Some(amt) => match self.account_withdraw(tx.client_id, amt) {
                    Ok(()) => {
                        self.set_tx(tx.client_id, tx.with_state(TransactionState::Completed));
                        Ok(())
                    },
                    Err(e) => Err(e),
                },
                None => Err(Error::Transaction(TransactionError::UnExpectedAmount)),
            },
            TransactionKind::Dispute => match tx.amount {
                Some(_) => Err(Error::Transaction(TransactionError::UnExpectedAmount)),
                None => match self.get_tx(&tx.client_id, &tx.tx) {
                    Some(t) => {
                        if t.can_dispute() {
                            match self.account_dispute(
                                tx.client_id,
                                t.amount.unwrap(),
                                t.kind.is_deposit(),
                            ) {
                                Ok(()) => {
                                    self.set_tx(
                                        tx.client_id,
                                        t.with_state(TransactionState::Dispute),
                                    );
                                    Ok(())
                                },
                                Err(e) => Err(e),
                            }
                        } else {
                            Err(Error::Transaction(TransactionError::Dispute))
                        }
                    },
                    None => Err(Error::Transaction(TransactionError::NotFound)),
                },
            },
            TransactionKind::Resolve => match tx.amount {
                Some(_) => Err(Error::Transaction(TransactionError::UnExpectedAmount)),
                None => match self.get_tx(&tx.client_id, &tx.tx) {
                    Some(t) => {
                        if t.can_resolve() {
                            match self.account_resolve(tx.client_id, t.amount.unwrap()) {
                                Ok(()) => {
                                    self.set_tx(
                                        tx.client_id,
                                        t.with_state(TransactionState::Resolved),
                                    );
                                    Ok(())
                                },
                                Err(e) => Err(e),
                            }
                        } else {
                            Err(Error::Transaction(TransactionError::Resolve))
                        }
                    },
                    None => Ok(()),
                },
            },
            TransactionKind::Chargeback => match tx.amount {
                Some(_) => Err(Error::Transaction(TransactionError::UnExpectedAmount)),
                None => match self.get_tx(&tx.client_id, &tx.tx) {
                    Some(t) => {
                        if t.can_chargeback() {
                            match self.account_chargeback(tx.client_id, t.amount.unwrap()) {
                                Ok(()) => {
                                    self.set_tx(
                                        tx.client_id,
                                        t.with_state(TransactionState::Chargeback),
                                    );
                                    Ok(())
                                },
                                Err(e) => Err(e),
                            }
                        } else {
                            Err(Error::Transaction(TransactionError::Chargeback))
                        }
                    },
                    None => Ok(()),
                },
            },
        };
        proof {
            assert(self@ =~= step(pre, tx).0);
        }
        ret
    }

    /// Whether the machine-limit side condition of [`Db::process`] holds
    /// for this event, so an unverified caller can test it first.
    pub fn step_allowed(&self, tx: &Transaction) -> (r: bool)
        ensures
            r == step_fits(self@, *tx),
    {
        match tx.kind {
            TransactionKind::Deposit => match tx.amount {
                Some(amt) => {
                    let a0 = self.account_snapshot(tx.client_id);
                    (a0.available as i128) + (a0.held as i128) + (amt as i128) <= i64::MAX as i128
                },
                None => true,
            },
            TransactionKind::Dispute => match tx.amount {
                Some(_) => true,
                None => match self.get_tx(&tx.client_id, &tx.tx) {
                    Some(rec) => {
                        if rec.can_dispute() && !rec.kind.is_deposit() {
                            let a0 = self.account_snapshot(tx.client_id);
                            (a0.available as i128) + (a0.held as i128) + (rec.amount.unwrap()
                                as i128) <= i64::MAX as i128
                        } else {
                            true
                        }
                    },
                    None => true,
                },
            },
            _ => true,
        }
    }

    /// A copy of the account filed under `c`, or a fresh zero account.
    fn account_snapshot(&self, c: u16) -> (r: Account)
        ensures
            r == acc_or_new(self@.accounts, c),
    {
        match self.accounts.get(&c) {
            Some(a) => *a,
            None => Account::new(c),
        }
    }

    /// The stored record under the (client, transaction) key, if any.
    fn get_tx(&self, client_id: &u16, tx_id: &u32) -> (r: Option<Transaction>)
        ensures
            r == tx_lookup(self@, *client_id, *tx_id),
    {
        match self.transactions.get(client_id) {
            Some(inner) => match inner.get(tx_id) {
                Some(t) => Some(*t),
                None => None,
            },
            None => None,
        }
    }

    /// Files `tx` under its client and transaction id, returning the
    /// record previously stored there, if any.
    fn set_tx(&mut self, client_id: u16, tx: Transaction) -> (prev: Option<Transaction>)
        ensures
            final(self)@.accounts == old(self)@.accounts,
            final(self)@.txs == tx_store(old(self)@.txs, client_id, tx),
            prev == tx_lookup(old(self)@, client_id, tx.tx),
    {
        let ghost pre = self@;
        let mut inner: HashMap<u32, Transaction> = match self.transactions.remove(&client_id) {
            Some(m) => m,
            None => HashMap::new(),
        };
        let prev = inner.insert(tx.tx, tx);
        self.transactions.insert(client_id, inner);
        proof {
            assert(self@.accounts =~= pre.accounts);
            assert(self@.txs =~= tx_store(pre.txs, client_id, tx));
        }
        prev
    }

    /// Applies [`Account::deposit`] to the client's account, creating it
    /// first if absent; the account stays in the ledger either way.
    fn account_deposit(&mut self, client_id: u16, amount: i64) -> (r: Result<(), Error>)
        requires
            old(self)@.inv(),
            amount >= 0,
            acc_or_new(old(self)@.accounts, client_id).available + acc_or_new(
                old(self)@.accounts,
                client_id,
            ).held + amount <= i64::MAX,
        ensures
            final(self)@.txs == old(self)@.txs,
            ({
                let a0 = acc_or_new(old(self)@.accounts, client_id);
                if a0.deposit_ok(amount) {
                    r is Ok && final(self)@.accounts == old(self)@.accounts.insert(
                        client_id,
                        a0.deposit_post(amount),
                    )
                } else {
                    r == Err::<(), Error>(Error::Account(AccountError::Locked))
                        && final(self)@.accounts == old(self)@.accounts.insert(client_id, a0)
                }
            }),
    {
        let ghost pre = self@;
        let mut acc = self.take_account(client_id);
        let r = acc.deposit(amount);
        self.accounts.insert(client_id, acc);
        proof {
            assert(self@.txs =~= pre.txs);
            assert(self@.accounts =~= pre.accounts.insert(client_id, acc));
        }
        r
    }

    /// Applies [`Account::withdraw`] to the client's account, creating it
    /// first if absent; the account stays in the ledger either way.
    fn account_withdraw(&mut self, client_id: u16, amount: i64) -> (r: Result<(), Error>)
        requires
            old(self)@.inv(),
            amount >= 0,
        ensures
            final(self)@.txs == old(self)@.txs,
            ({
                let a0 = acc_or_new(old(self)@.accounts, client_id);
                if a0.withdraw_ok(amount) {
                    r is Ok && final(self)@.accounts == old(self)@.accounts.insert(
                        client_id,
                        a0.withdraw_post(amount),
                    )
                } else {
                    final(self)@.accounts == old(self)@.accounts.insert(client_id, a0) && r == (
                    if a0.locked {
                        Err::<(), Error>(Error::Account(AccountError::Locked))
                    } else {
                        Err::<(), Error>(Error::Account(AccountError::Withdraw))
                    })
                }
            }),
    {
        let ghost pre = self@;
        let mut acc = self.take_account(client_id);
        let r = acc.withdraw(amount);
        self.accounts.insert(client_id, acc);
        proof {
            assert(self@.txs =~= pre.txs);
            assert(self@.accounts =~= pre.accounts.insert(client_id, acc));
        }
        r
    }

    /// Applies [`Account::dispute`] to the client's account, creating it
    /// first if absent; the account stays in the ledger either way.
    fn account_dispute(&mut self, client_id: u16, amount: i64, is_deposit: bool) -> (r: Result<
        (),
        Error,
    >)
        requires
            old(self)@.inv(),
            amount >= 0,
            !is_deposit ==> acc_or_new(old(self)@.accounts, client_id).available + acc_or_new(
                old(self)@.accounts,
                client_id,
            ).held + amount <= i64::MAX,
        ensures
            final(self)@.txs == old(self)@.txs,
            ({
                let a0 = acc_or_new(old(self)@.accounts, client_id);
                if a0.dispute_ok(amount, is_deposit) {
                    r is Ok && final(self)@.accounts == old(self)@.accounts.insert(
                        client_id,
                        a0.dispute_post(amount, is_deposit),
                    )
                } else {
                    final(self)@.accounts == old(self)@.accounts.insert(client_id, a0) && r == (
                    if a0.locked {
                        Err::<(), Error>(Error::Account(AccountError::Locked))
                    } else {
                        Err::<(), Error>(Error::Account(AccountError::Dispute))
                    })
                }
            }),
    {
        let ghost pre = self@;
        let mut acc = self.take_account(client_id);
        let r = acc.dispute(amount, is_deposit);
        self.accounts.insert(client_id, acc);
        proof {
            assert(self@.txs =~= pre.txs);
            assert(self@.accounts =~= pre.accounts.insert(client_id, acc));
        }
        r
    }

    /// Applies [`Account::resolve`] to the client's account, creating it
    /// first if absent; the account stays in the ledger either way.
    fn account_resolve(&mut self, client_id: u16, amount: i64) -> (r: Result<(), Error>)
        requires
            old(self)@.inv(),
            amount >= 0,
        ensures
            final(self)@.txs == old(self)@.txs,
            ({
                let a0 = acc_or_new(old(self)@.accounts, client_id);
                if a0.resolve_ok(amount) {
                    r is Ok && final(self)@.accounts == old(self)@.accounts.insert(
                        client_id,
                        a0.resolve_post(amount),
                    )
                } else {
                    final(self)@.accounts == old(self)@.accounts.insert(client_id, a0) && r == (
                    if a0.locked {
                        Err::<(), Error>(Error::Account(AccountError::Locked))
                    } else {
                        Err::<(), Error>(Error::Account(AccountError::Resolve))
                    })
                }
            }),
    {
        let ghost pre = self@;
        let mut acc = self.take_account(client_id);
        let r = acc.resolve(amount);
        self.accounts.insert(client_id, acc);
        proof {
            assert(self@.txs =~= pre.txs);
            assert(self@.accounts =~= pre.accounts.insert(client_id, acc));
        }
        r
    }

    /// Applies [`Account::chargeback`] to the client's account, creating it
    /// first if absent; the account stays in the ledger either way.
    fn account_chargeback(&mut self, client_id: u16, amount: i64) -> (r: Result<(), Error>)
        requires
            old(self)@.inv(),
            amount >= 0,
        ensures
            final(self)@.txs == old(self)@.txs,
            ({
                let a0 = acc_or_new(old(self)@.accounts, client_id);
                if a0.chargeback_ok(amount) {
                    r is Ok && final(self)@.accounts == old(self)@.accounts.insert(
                        client_id,
                        a0.chargeback_post(amount),
                    )
                } else {
                    final(self)@.accounts == old(self)@.accounts.insert(client_id, a0) && r == (
                    if a0.locked {
                        Err::<(), Error>(Error::Account(AccountError::Locked))
                    } else {
                        Err::<(), Error>(Error::Account(AccountError::Chargeback))
                    })
                }
            }),
    {
        let ghost pre = self@;
        let mut acc = self.take_account(client_id);
        let r = acc.chargeback(amount);
        self.accounts.insert(client_id, acc);
        proof {
            assert(self@.txs =~= pre.txs);
            assert(self@.accounts =~= pre.accounts.insert(client_id, acc));
        }
        r
    }

    /// Removes and returns the client's account, or a fresh one if absent;
    /// the caller puts it back after the balance operation.
    fn take_account(&mut self, client_id: u16) -> (r: Account)
        ensures
            r == acc_or_new(old(self)@.accounts, client_id),
            final(self)@.accounts == old(self)@.accounts.remove(client_id),
            final(self)@.txs == old(self)@.txs,
    {
        let ghost pre = self@;
        let r = match self.accounts.remove(&client_id) {
            Some(a) => a,
            None => Account::new(client_id),
        };
        proof {
            assert(self@.accounts =~= pre.accounts.remove(client_id));
            assert(self@.txs =~= pre.txs);
        }
        r
    }

    /// Read-only snapshot of the account ledger, for reporting.
    pub fn accounts(&self) -> (r: &HashMap<u16, Account>)
        ensures
            r@ == self@.accounts,
    {
        &self.accounts
    }

    /// Read-only snapshot of the transaction registry, for reporting.
    pub fn transactions(&self) -> (r: &HashMap<u16, HashMap<u32, Transaction>>)
        ensures
            self@.txs == r@.map_values(|m: HashMap<u32, Transaction>| m@),
    {
        &self.transactions
    }

    /// Forgets every account and record, as at the start of a run.
    pub fn clean(&mut self)
        ensures
            final(self)@.accounts == Map::<u16, Account>::empty(),
            final(self)@.txs == Map::<u16, Map<u32, Transaction>>::empty(),
            final(self)@.inv(),
    {
        self.accounts.clear();
        self.transactions.clear();
        proof {
            assert(self@.txs =~= Map::<u16, Map<u32, Transaction>>::empty());
        }
    }
}

} // verus!
