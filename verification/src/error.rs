//! The error taxonomy of the engine.
//!
//! Every failure of a single event is local to that event: the caller
//! reports it and goes on with the next event; no error rolls back state.

use vstd::prelude::*;
use vstd::string::StringExecFns;
use crate::account::AccountError;
use crate::transaction::TransactionError;

verus! {

/// Any failure the engine or its surrounding plumbing can report.
#[derive(Debug, Clone, PartialEq)]
pub enum Error {
    /// A balance operation was refused by the account ledger.
    Account(AccountError),
    /// A dispute-family event was refused by the transaction registry rules.
    Transaction(TransactionError),
    /// The command line did not name an input file.
    ArgsParse,
    /// A failure reported by a collaborator outside the engine.
    Other(String),
}

impl From<AccountError> for Error {
    fn from(value: AccountError) -> (r: Self)
        ensures
            r == Error::Account(value),
    {
        Error::Account(value)
    }
}

impl vstd::std_specs::convert::FromSpecImpl<AccountError> for Error {
    open spec fn obeys_from_spec() -> bool {
        true
    }

    open spec fn from_spec(value: AccountError) -> Self {
        Error::Account(value)
    }
}

impl From<TransactionError> for Error {
    fn from(value: TransactionError) -> (r: Self)
        ensures
            r == Error::Transaction(value),
    {
        Error::Transaction(value)
    }
}

impl vstd::std_specs::convert::FromSpecImpl<TransactionError> for Error {
    open spec fn obeys_from_spec() -> bool {
        true
    }

    open spec fn from_spec(value: TransactionError) -> Self {
        Error::Transaction(value)
    }
}

impl Error {
    /// The failure, in words, with the engine part it came from.
    pub open spec fn message_spec(self) -> Seq<char> {
        match self {
            Error::Account(e) => "AccountError: "@ + e.message_spec(),
            Error::Transaction(e) => "Transaction: "@ + e.message_spec(),
            Error::ArgsParse => "The application expects only one argument, that should be an input csv file with transactions"@,
            Error::Other(e) => e@,
        }
    }

    /// The failure, in words, with the engine part it came from.
    pub fn message(&self) -> (r: String)
        ensures
            r@ == self.message_spec(),
    {
        match self {
            Error::Account(e) => {
                let mut s = "AccountError: ".to_owned();
                let part = e.message();
                s.append(part.as_str());
                s
            },
            Error::Transaction(e) => {
                let mut s = "Transaction: ".to_owned();
                let part = e.message();
                s.append(part.as_str());
                s
            },
            Error::ArgsParse => "The application expects only one argument, that should be an input csv file with transactions".to_owned(),
            Error::Other(e) => e.clone(),
        }
    }
}

} // verus!
