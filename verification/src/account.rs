//! The account ledger's per-client balance record.
//!
//! An account keeps funds split into `available` and `held`, together with
//! the derived `total` and a permanent `locked` flag. Every mutating
//! operation first re-checks the lock, then checks its own legality rule,
//! and mutates balances only when the rule holds, so a failed operation
//! leaves the account exactly as it was.
//!
//! Amounts are integers in caller-chosen minor units, so the invariant
//! `total == available + held` holds exactly, with no drift.

use vstd::prelude::*;
use vstd::string::StringExecFns;
use crate::error::Error;

verus! {

/// One balance record, created lazily on the first event naming its client.
#[derive(Debug, Clone, Copy)]
pub struct Account {
    pub client_id: u16,
    pub available: i64,
    pub held: i64,
    pub total: i64,
    pub locked: bool,
}

/// Why a balance operation was refused.
#[derive(Debug, Clone, Copy, PartialEq, Eq, Structural)]
pub enum AccountError {
    /// The account is permanently locked; no operation mutates it any more.
    Locked,
    /// A withdrawal asked for more than is available.
    Withdraw,
    /// A dispute of a deposit asked to hold more than is available.
    Dispute,
    /// A resolve asked to release more than is held.
    Resolve,
    /// A chargeback asked to reverse more than is available.
    Chargeback,
}

impl Account {
    /// Well-formedness: both balance parts are non-negative and `total` is
    /// exactly their sum (which therefore also fits in the field).
    pub open spec fn wf(self) -> bool {
        &&& self.available >= 0
        &&& self.held >= 0
        &&& self.total == self.available + self.held
    }

    /// A fresh, unlocked account with zero balances.
    pub open spec fn new_spec(client_id: u16) -> Account {
        Account { client_id, available: 0, held: 0, total: 0, locked: false }
    }

    pub fn new(client_id: u16) -> (r: Self)
        ensures
            r == Self::new_spec(client_id),
            r.wf(),
    {
        Account { client_id, available: 0, held: 0, total: 0, locked: false }
    }

    /// Whether a deposit of `amount` is legal: only the lock can refuse it.
    pub open spec fn deposit_ok(self, amount: i64) -> bool {
        !self.locked
    }

    /// The account after a successful deposit: `amount` added to the
    /// available funds.
    pub open spec fn deposit_post(self, amount: i64) -> Account {
        Account {
            available: (self.available + amount) as i64,
            total: (self.total + amount) as i64,
            ..self
        }
    }

    /// Credits `amount` to the available funds. Always succeeds on an
    /// unlocked account; fails with `Locked` otherwise, leaving the account
    /// unchanged.
    pub fn deposit(&mut self, amount: i64) -> (r: Result<(), Error>)
        requires
            old(self).wf(),
            amount >= 0,
            old(self).available + old(self).held + amount <= i64::MAX,
        ensures
            final(self).wf(),
            old(self).deposit_ok(amount) ==> r is Ok && *final(self) == old(self).deposit_post(
                amount,
            ),
            !old(self).deposit_ok(amount) ==> r == Err::<(), Error>(
                Error::Account(AccountError::Locked),
            ) && *final(self) == *old(self),
    {
        self.check_locked()?;
        self.available = self.available + amount;
        self.calc_total();
        Ok(())
    }

    /// Whether a withdrawal of `amount` is legal: the account is unlocked
    /// and has at least `amount` available.
    pub open spec fn withdraw_ok(self, amount: i64) -> bool {
        !self.locked && self.available >= amount
    }

    /// The account after a successful withdrawal: `amount` taken from the
    /// available funds.
    pub open spec fn withdraw_post(self, amount: i64) -> Account {
        Account {
            available: (self.available - amount) as i64,
            total: (self.total - amount) as i64,
            ..self
        }
    }

    /// Debits `amount` from the available funds if they cover it; fails
    /// with `Withdraw` (insufficient funds) or `Locked` otherwise, leaving
    /// the account unchanged.
    pub fn withdraw(&mut self, amount: i64) -> (r: Result<(), Error>)
        requires
            old(self).wf(),
            amount >= 0,
        ensures
            final(self).wf(),
            old(self).withdraw_ok(amount) ==> r is Ok && *final(self) == old(self).withdraw_post(
                amount,
            ),
            old(self).locked ==> r == Err::<(), Error>(Error::Account(AccountError::Locked))
                && *final(self) == *old(self),
            !old(self).locked && old(self).available < amount ==> r == Err::<(), Error>(
                Error::Account(AccountError::Withdraw),
            ) && *final(self) == *old(self),
    {
        self.check_locked()?;
        let ret: Result<(), Error> = if self.available >= amount {
            self.available = self.available - amount;
            Ok(())
        } else {
            Err(Error::Account(AccountError::Withdraw))
        };
        self.calc_total();
        ret
    }

    /// Whether a dispute of `amount` is legal. When the disputed
    /// transaction was a deposit the available funds must cover the hold;
    /// when it was a withdrawal the hold is a re-credit and nothing besides
    /// the lock can refuse it.
    pub open spec fn dispute_ok(self, amount: i64, is_deposit: bool) -> bool {
        !self.locked && (is_deposit ==> self.available >= amount)
    }

    /// The account after a successful dispute: `amount` moved from
    /// available to held when the origin was a deposit, or added to held
    /// alone when it was a withdrawal.
    pub open spec fn dispute_post(self, amount: i64, is_deposit: bool) -> Account {
        if is_deposit {
            Account {
                available: (self.available - amount) as i64,
                held: (self.held + amount) as i64,
                ..self
            }
        } else {
            Account {
                held: (self.held + amount) as i64,
                total: (self.total + amount) as i64,
                ..self
            }
        }
    }

    /// Places `amount` on hold pending investigation. `is_deposit` says
    /// whether the disputed transaction was a deposit (hold funds that are
    /// still here) or a withdrawal (re-credit funds already gone, into
    /// held). Fails with `Dispute` when a deposit's hold is not covered, or
    /// with `Locked`; a failure leaves the account unchanged.
    pub fn dispute(&mut self, amount: i64, is_deposit: bool) -> (r: Result<(), Error>)
        requires
            old(self).wf(),
            amount >= 0,
            !is_deposit ==> old(self).available + old(self).held + amount <= i64::MAX,
        ensures
            final(self).wf(),
            old(self).dispute_ok(amount, is_deposit) ==> r is Ok && *final(self) == old(
                self,
            ).dispute_post(amount, is_deposit),
            old(self).locked ==> r == Err::<(), Error>(Error::Account(AccountError::Locked))
                && *final(self) == *old(self),
            !old(self).locked && is_deposit && old(self).available < amount ==> r == Err::<
                (),
                Error,
            >(Error::Account(AccountError::Dispute)) && *final(self) == *old(self),
    {
        self.check_locked()?;
        let ret: Result<(), Error> = if is_deposit {
            if self.available >= amount {
                self.available = self.available - amount;
                self.held = self.held + amount;
                Ok(())
            } else {
                Err(Error::Account(AccountError::Dispute))
            }
        } else {
            self.held = self.held + amount;
            Ok(())
        };
        self.calc_total();
        ret
    }

    /// Whether a resolve of `amount` is legal: the account is unlocked and
    /// holds at least `amount`.
    pub open spec fn resolve_ok(self, amount: i64) -> bool {
        !self.locked && self.held >= amount
    }

    /// The account after a successful resolve: `amount` moved from held
    /// back to available.
    pub open spec fn resolve_post(self, amount: i64) -> Account {
        Account {
            available: (self.available + amount) as i64,
            held: (self.held - amount) as i64,
            ..self
        }
    }

    /// Releases `amount` from held back into available. Fails with
    /// `Resolve` (insufficient held) or `Locked`, leaving the account
    /// unchanged.
    pub fn resolve(&mut self, amount: i64) -> (r: Result<(), Error>)
        requires
            old(self).wf(),
            amount >= 0,
        ensures
            final(self).wf(),
            old(self).resolve_ok(amount) ==> r is Ok && *final(self) == old(self).resolve_post(
                amount,
            ),
            old(self).locked ==> r == Err::<(), Error>(Error::Account(AccountError::Locked))
                && *final(self) == *old(self),
            !old(self).locked && old(self).held < amount ==> r == Err::<(), Error>(
                Error::Account(AccountError::Resolve),
            ) && *final(self) == *old(self),
    {
        self.check_locked()?;
        let ret: Result<(), Error> = if self.held >= amount {
            self.held = self.held - amount;
            self.available = self.available + amount;
            Ok(())
        } else {
            Err(Error::Account(AccountError::Resolve))
        };
        self.calc_total();
        ret
    }

    /// Whether a chargeback of `amount` is legal: the account is unlocked
    /// and the available funds cover the reversal.
    pub open spec fn chargeback_ok(self, amount: i64) -> bool {
        !self.locked && self.available >= amount
    }

    /// The account after a successful chargeback: `amount` taken from the
    /// available funds and the account permanently locked.
    pub open spec fn chargeback_post(self, amount: i64) -> Account {
        Account {
            available: (self.available - amount) as i64,
            total: (self.total - amount) as i64,
            locked: true,
            ..self
        }
    }

    /// Reverses `amount` out of the available funds and permanently locks
    /// the account. Fails with `Chargeback` (insufficient funds) or
    /// `Locked`, leaving the account unchanged — in particular the lock is
    /// not set on failure.
    pub fn chargeback(&mut self, amount: i64) -> (r: Result<(), Error>)
        requires
            old(self).wf(),
            amount >= 0,
        ensures
            final(self).wf(),
            old(self).chargeback_ok(amount) ==> r is Ok && *final(self) == old(
                self,
            ).chargeback_post(amount),
            old(self).locked ==> r == Err::<(), Error>(Error::Account(AccountError::Locked))
                && *final(self) == *old(self),
            !old(self).locked && old(self).available < amount ==> r == Err::<(), Error>(
                Error::Account(AccountError::Chargeback),
            ) && *final(self) == *old(self),
    {
        self.check_locked()?;
        let ret: Result<(), Error> = if self.available >= amount {
            self.available = self.available - amount;
            self.lock();
            Ok(())
        } else {
            Err(Error::Account(AccountError::Chargeback))
        };
        self.calc_total();
        ret
    }

    /// Reports the lock: `Err(Locked)` exactly when the account is locked.
    pub fn check_locked(&self) -> (r: Result<(), Error>)
        ensures
            self.locked ==> r == Err::<(), Error>(Error::Account(AccountError::Locked)),
            !self.locked ==> r is Ok,
    {
        if self.locked {
            Err(Error::Account(AccountError::Locked))
        } else {
            Ok(())
        }
    }

    fn calc_total(&mut self)
        requires
            old(self).available + old(self).held <= i64::MAX,
            old(self).available + old(self).held >= i64::MIN,
        ensures
            *final(self) == (Account {
                total: (old(self).available + old(self).held) as i64,
                ..*old(self)
            }),
    {
        self.total = self.available + self.held;
    }

    fn lock(&mut self)
        ensures
            *final(self) == (Account { locked: true, ..*old(self) }),
    {
        self.locked = true;
    }

    /// The report row for this account, exactly as [`csv_row_spec`] lays
    /// it out: the client id, the three balances and the lock flag,
    /// comma-separated.
    pub fn to_csv_row(&self) -> (r: String)
        requires
            self.wf(),
        ensures
            r@ == csv_row_spec(*self),
    {
        proof {
            reveal_strlit(",");
        }
        let mut s = crate::text::u64_string(self.client_id as u64);
        s.append(",");
        let part = crate::text::u64_string(self.available as u64);
        s.append(part.as_str());
        s.append(",");
        let part = crate::text::u64_string(self.held as u64);
        s.append(part.as_str());
        s.append(",");
        let part = crate::text::u64_string(self.total as u64);
        s.append(part.as_str());
        s.append(",");
        s.append(crate::text::bool_string(self.locked));
        proof {
            assert(s@ =~= csv_row_spec(*self));
        }
        s
    }
}

/// The report row of an account: `client,available,held,total,locked` in
/// decimal, with the lock as `true` or `false`.
pub open spec fn csv_row_spec(a: Account) -> Seq<char>
    recommends
        a.wf(),
{
    crate::text::dec_rep(a.client_id as nat) + ","@ + crate::text::dec_rep(a.available as nat)
        + ","@ + crate::text::dec_rep(a.held as nat) + ","@ + crate::text::dec_rep(a.total as nat)
        + ","@ + crate::text::bool_rep(a.locked)
}

impl AccountError {
    /// The reason for the refusal, in words.
    pub open spec fn message_spec(self) -> Seq<char> {
        match self {
            AccountError::Locked => "Account is locked"@,
            AccountError::Withdraw => "Account has not enough money available to withdraw"@,
            AccountError::Dispute => "Account has not enough money available to dispute"@,
            AccountError::Resolve => "Account has not enough money available to resolve"@,
            AccountError::Chargeback => "Account has not enough money available to chargeback"@,
        }
    }

    /// The reason for the refusal, in words.
    pub fn message(&self) -> (r: String)
        ensures
            r@ == self.message_spec(),
    {
        match self {
            AccountError::Locked => "Account is locked".to_owned(),
            AccountError::Withdraw => "Account has not enough money available to withdraw"
                .to_owned(),
            AccountError::Dispute => "Account has not enough money available to dispute"
                .to_owned(),
            AccountError::Resolve => "Account has not enough money available to resolve"
                .to_owned(),
            AccountError::Chargeback => "Account has not enough money available to chargeback"
                .to_owned(),
        }
    }
}

} // verus!
