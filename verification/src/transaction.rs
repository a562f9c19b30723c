//! Events and transaction lifecycle records.
//!
//! A [`Transaction`] value serves two roles: as an inbound event (kind,
//! client, transaction id, optional amount) and, once a deposit or a
//! withdrawal has been applied, as the stored lifecycle record whose
//! `state` the dispute / resolve / chargeback events later mutate.

use vstd::prelude::*;

verus! {

/// The five event kinds an input record can carry.
#[derive(Debug, Clone, Copy, PartialEq, Eq, Structural)]
pub enum TransactionKind {
    Withdrawal,
    Deposit,
    Dispute,
    Resolve,
    Chargeback,
}

impl TransactionKind {
    /// True exactly for the `Deposit` kind.
    pub fn is_deposit(&self) -> (r: bool)
        ensures
            r == (*self is Deposit),
    {
        matches!(*self, TransactionKind::Deposit)
    }
}

/// Lifecycle state of a stored transaction record.
///
/// `Processing` is the initial state of a freshly decoded event; applying a
/// deposit or a withdrawal stores the record as `Completed`; a dispute moves
/// it to `Dispute`; `Resolved` and `Chargeback` are terminal.
#[derive(Debug, Clone, Copy, PartialEq, Eq, Structural)]
pub enum TransactionState {
    Processing,
    Dispute,
    Completed,
    Resolved,
    Chargeback,
}

impl Default for TransactionState {
    /// A record not yet observed as disputable starts in `Processing`.
    fn default() -> (r: Self)
        ensures
            r is Processing,
    {
        TransactionState::Processing
    }
}

/// One event, and equally one stored lifecycle record.
///
/// `amount` is in caller-chosen minor units and is present only for
/// deposits and withdrawals; once a record is stored its amount never
/// changes, only its `state` does.
#[derive(Debug, Clone, Copy, PartialEq)]
pub struct Transaction {
    pub kind: TransactionKind,
    pub client_id: u16,
    pub tx: u32,
    pub amount: Option<i64>,
    pub state: TransactionState,
}

impl Transaction {
    /// Shape rule for an inbound event: deposits and withdrawals must carry
    /// a non-negative amount; the three dispute-family kinds must carry none.
    pub open spec fn valid_spec(self) -> bool {
        match self.kind {
            TransactionKind::Withdrawal | TransactionKind::Deposit => match self.amount {
                Some(a) => a >= 0,
                None => false,
            },
            _ => self.amount is None,
        }
    }

    /// Checks the shape rule; an event failing it must be dropped before it
    /// reaches the processor.
    pub fn is_valid(&self) -> (r: bool)
        ensures
            r == self.valid_spec(),
    {
        match self.kind {
            TransactionKind::Withdrawal | TransactionKind::Deposit => match self.amount {
                Some(a) => a >= 0,
                None => false,
            },
            _ => self.amount.is_none(),
        }
    }

    /// The same record with `state` replaced and every other field kept.
    pub fn with_state(self, state: TransactionState) -> (r: Self)
        ensures
            r == (Transaction { state, ..self }),
    {
        Transaction { state, ..self }
    }

    /// Overwrites `state` in place; every other field is kept.
    pub fn set_state(&mut self, state: TransactionState) -> (r: Result<(), crate::error::Error>)
        ensures
            *final(self) == (Transaction { state, ..*old(self) }),
            r is Ok,
    {
        self.state = state;
        Ok(())
    }

    /// A record is disputable exactly when it was completed and carries an
    /// amount.
    pub open spec fn can_dispute_spec(self) -> bool {
        self.state is Completed && self.amount is Some
    }

    pub fn can_dispute(&self) -> (r: bool)
        ensures
            r == self.can_dispute_spec(),
    {
        matches!(self.state, TransactionState::Completed) && self.amount.is_some()
    }

    /// A record can be resolved exactly when it is under dispute and carries
    /// an amount.
    pub open spec fn can_resolve_spec(self) -> bool {
        self.state is Dispute && self.amount is Some
    }

    pub fn can_resolve(&self) -> (r: bool)
        ensures
            r == self.can_resolve_spec(),
    {
        matches!(self.state, TransactionState::Dispute) && self.amount.is_some()
    }

    /// A record can be charged back exactly when it is under dispute and
    /// carries an amount.
    pub open spec fn can_chargeback_spec(self) -> bool {
        self.state is Dispute && self.amount is Some
    }

    pub fn can_chargeback(&self) -> (r: bool)
        ensures
            r == self.can_chargeback_spec(),
    {
        matches!(self.state, TransactionState::Dispute) && self.amount.is_some()
    }
}

/// Why an event in the dispute family was rejected.
#[derive(Debug, Clone, Copy, PartialEq, Eq, Structural)]
pub enum TransactionError {
    /// A dispute referenced a (client, transaction) pair with no record.
    NotFound,
    /// The event's kind and amount presence do not fit together.
    UnExpectedAmount,
    /// The referenced record is not in a disputable state.
    Dispute,
    /// The referenced record is not under dispute, so it cannot be resolved.
    Resolve,
    /// The referenced record is not under dispute, so it cannot be charged
    /// back.
    Chargeback,
}

impl TransactionError {
    /// The reason for the rejection, in words.
    pub open spec fn message_spec(self) -> Seq<char> {
        match self {
            TransactionError::NotFound => "Transaction not found"@,
            TransactionError::UnExpectedAmount => "Transaction has an unexpected amount: a deposit or withdrawal without one, or a dispute, resolve or chargeback carrying one"@,
            TransactionError::Dispute => "Transaction cannot be disputed"@,
            TransactionError::Resolve => "Transaction has incorrect state and cannot be resolved"@,
            TransactionError::Chargeback => "Transaction has incorrect state and cannot be charged back"@,
        }
    }

    /// The reason for the rejection, in words.
    pub fn message(&self) -> (r: String)
        ensures
            r@ == self.message_spec(),
    {
        match self {
            TransactionError::NotFound => "Transaction not found".to_owned(),
            TransactionError::UnExpectedAmount => "Transaction has an unexpected amount: a deposit or withdrawal without one, or a dispute, resolve or chargeback carrying one".to_owned(),
            TransactionError::Dispute => "Transaction cannot be disputed".to_owned(),
            TransactionError::Resolve => "Transaction has incorrect state and cannot be resolved"
                .to_owned(),
            TransactionError::Chargeback => "Transaction has incorrect state and cannot be charged back".to_owned(),
        }
    }
}

} // verus!
