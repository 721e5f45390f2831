//! The errors of the engine.

use crate::account::AccountId;
use crate::transaction::{TransactionId, TransactionKind};
use vstd::prelude::*;
use vstd::std_specs::convert::FromSpecImpl;

verus! {

/// What can go wrong around the engine.
#[derive(Debug, PartialEq)]
pub enum PaymentEngineError {
    /// A command was refused by the rules of an account.
    AccountProcessError(AccountOperationError),
    /// The command line was wrong.
    CommandLineError(String),
    /// Reading the input or writing the output failed.
    InputOutpoutError(String),
    /// A record of the input could not be read.
    CSVReaderError(String),
    /// A channel between two tasks was closed, or a task failed.
    TokioMpscError(String),
    /// A record lacks the amount that it needs, carries one that it must
    /// not carry, or its amount is no decimal number.
    InvalidAmountFormat(),
}

impl From<AccountOperationError> for PaymentEngineError {
    fn from(e: AccountOperationError) -> (r: Self) {
        PaymentEngineError::AccountProcessError(e)
    }
}

impl FromSpecImpl<AccountOperationError> for PaymentEngineError {
    open spec fn obeys_from_spec() -> bool {
        true
    }

    open spec fn from_spec(e: AccountOperationError) -> Self {
        PaymentEngineError::AccountProcessError(e)
    }
}

/// Why an account refused a command.
#[derive(Debug, PartialEq)]
pub enum AccountOperationError {
    /// The wallet does not hold what the operation asks for.
    InsufficientFunds,
    /// The amount was zero or negative.
    NonPositiveAmount,
    /// The account was frozen by a chargeback.
    AccountLocked(AccountId),
    /// The result does not fit in a decimal amount.
    OverflowInWallet,
    InfallibleError(String),
    /// A command reached the worker of another account: the account it
    /// names, then the worker's own.
    WrongAccountId(AccountId, AccountId),
    /// The account has already accepted a transaction with this id.
    DuplicatedTransaction(TransactionId),
    /// The account has no transaction with this id.
    TransactionNotFound(TransactionId),
    /// Only deposits can be disputed.
    DisputeIsNotDeposit(TransactionKind),
    /// The transaction or its dispute is not in the state that the command
    /// needs; the text says in which it is.
    TransactionStateMismatch(TransactionId, &'static str),
    /// No dispute was opened on this transaction.
    TransactionDisputeNotFound(TransactionId),
}

impl Clone for AccountOperationError {
    fn clone(&self) -> (r: Self)
        ensures
            r == *self,
    {
        match self {
            AccountOperationError::InsufficientFunds => AccountOperationError::InsufficientFunds,
            AccountOperationError::NonPositiveAmount => AccountOperationError::NonPositiveAmount,
            AccountOperationError::AccountLocked(id) => AccountOperationError::AccountLocked(*id),
            AccountOperationError::OverflowInWallet => AccountOperationError::OverflowInWallet,
            AccountOperationError::InfallibleError(text) => AccountOperationError::InfallibleError(
                text.clone(),
            ),
            AccountOperationError::WrongAccountId(named, own) => {
                AccountOperationError::WrongAccountId(*named, *own)
            },
            AccountOperationError::DuplicatedTransaction(id) => {
                AccountOperationError::DuplicatedTransaction(*id)
            },
            AccountOperationError::TransactionNotFound(id) => {
                AccountOperationError::TransactionNotFound(*id)
            },
            AccountOperationError::DisputeIsNotDeposit(kind) => {
                AccountOperationError::DisputeIsNotDeposit(*kind)
            },
            AccountOperationError::TransactionStateMismatch(id, reason) => {
                AccountOperationError::TransactionStateMismatch(*id, *reason)
            },
            AccountOperationError::TransactionDisputeNotFound(id) => {
                AccountOperationError::TransactionDisputeNotFound(*id)
            },
        }
    }
}

} // verus!
