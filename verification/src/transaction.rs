//! Transactions and disputes: what they are and the states they go through.

use crate::account::AccountId;
use crate::amount::{Amount, AmountView};
use vstd::prelude::*;

verus! {

pub type TransactionId = u32;

#[derive(Debug, Copy, Clone, PartialEq, Eq, Structural)]
pub enum TransactionKind {
    Deposit,
    Withdrawal,
}

impl TransactionKind {
    /// The name of the kind, as it is written in messages.
    pub open spec fn spec_name(self) -> Seq<char> {
        match self {
            TransactionKind::Deposit => seq!['D', 'e', 'p', 'o', 's', 'i', 't'],
            TransactionKind::Withdrawal => seq!['W', 'i', 't', 'h', 'd', 'r', 'a', 'w', 'a', 'l'],
        }
    }

    /// The name of the kind, as it is written in messages.
    pub fn name(&self) -> (r: &'static str)
        ensures
            r@ == self.spec_name(),
    {
        proof {
            reveal_strlit("Deposit");
            reveal_strlit("Withdrawal");
        }
        match self {
            TransactionKind::Deposit => {
                assert("Deposit"@ =~= self.spec_name());
                "Deposit"
            },
            TransactionKind::Withdrawal => {
                assert("Withdrawal"@ =~= self.spec_name());
                "Withdrawal"
            },
        }
    }
}

/// Where a transaction stands. A transaction is `Created` until it has been
/// applied, `Processed` once it has, `DisputeInProgress` while a dispute on
/// it is open, and `ChargedBack` for good after a chargeback.
#[derive(Debug, Copy, Clone, PartialEq, Eq, Structural)]
pub enum TransactionStatus {
    ChargedBack,
    Created,
    DisputeInProgress,
    Processed,
}

/// The mathematical content of a [`Transaction`].
pub struct TransactionView {
    pub kind: TransactionKind,
    pub id: TransactionId,
    pub account_id: AccountId,
    pub amount: AmountView,
    pub status: TransactionStatus,
}

impl TransactionView {
    /// The same transaction in another state.
    pub open spec fn with_status(self, status: TransactionStatus) -> TransactionView {
        TransactionView { status, ..self }
    }
}

/// A deposit or a withdrawal on one account.
#[derive(Debug, Copy, Clone, PartialEq)]
pub struct Transaction {
    kind: TransactionKind,
    id: TransactionId,
    account_id: AccountId,
    amount: Amount,
    status: TransactionStatus,
}

impl View for Transaction {
    type V = TransactionView;

    closed spec fn view(&self) -> TransactionView {
        TransactionView {
            kind: self.kind,
            id: self.id,
            account_id: self.account_id,
            amount: self.amount@,
            status: self.status,
        }
    }
}

impl Transaction {
    /// A transaction that has not been applied yet.
    pub fn new(kind: TransactionKind, id: TransactionId, account_id: AccountId, amount: Amount) -> (r:
        Self)
        ensures
            r@ == (TransactionView {
                kind,
                id,
                account_id,
                amount: amount@,
                status: TransactionStatus::Created,
            }),
    {
        Self { kind, id, account_id, amount, status: TransactionStatus::Created }
    }

    pub fn kind(&self) -> (r: TransactionKind)
        ensures
            r == self@.kind,
    {
        self.kind
    }

    pub fn id(&self) -> (r: TransactionId)
        ensures
            r == self@.id,
    {
        self.id
    }

    pub fn account_id(&self) -> (r: AccountId)
        ensures
            r == self@.account_id,
    {
        self.account_id
    }

    pub fn amount(&self) -> (r: Amount)
        ensures
            r@ == self@.amount,
    {
        self.amount
    }

    pub fn status(&self) -> (r: TransactionStatus)
        ensures
            r == self@.status,
    {
        self.status
    }

    /// Moves the transaction to another state; what it is stays.
    pub fn set_status(&mut self, status: TransactionStatus)
        ensures
            final(self)@ == old(self)@.with_status(status),
    {
        self.status = status;
    }
}

#[derive(Debug, Copy, Clone, PartialEq, Eq, Structural)]
pub enum DisputeResolution {
    Cancelled,
    ChargedBack,
}

#[derive(Debug, Copy, Clone, PartialEq, Eq, Structural)]
pub enum DisputeStatus {
    Created,
    InProgress,
    Resolved(DisputeResolution),
}

/// The mathematical content of a [`Dispute`].
pub struct DisputeView {
    pub account_id: AccountId,
    pub tx_id: TransactionId,
    pub status: DisputeStatus,
}

impl DisputeView {
    /// The same dispute in another state.
    pub open spec fn with_status(self, status: DisputeStatus) -> DisputeView {
        DisputeView { status, ..self }
    }
}

/// A dispute on a transaction, which it names by its id.
#[derive(Debug, Copy, Clone, PartialEq)]
pub struct Dispute {
    account_id: AccountId,
    tx_id: TransactionId,
    status: DisputeStatus,
}

impl View for Dispute {
    type V = DisputeView;

    closed spec fn view(&self) -> DisputeView {
        DisputeView { account_id: self.account_id, tx_id: self.tx_id, status: self.status }
    }
}

impl Dispute {
    /// A dispute that has not been opened yet.
    pub fn new(account_id: AccountId, tx_id: TransactionId) -> (r: Self)
        ensures
            r@ == (DisputeView { account_id, tx_id, status: DisputeStatus::Created }),
    {
        Self { account_id, tx_id, status: DisputeStatus::Created }
    }

    pub fn account_id(&self) -> (r: AccountId)
        ensures
            r == self@.account_id,
    {
        self.account_id
    }

    pub fn tx_id(&self) -> (r: TransactionId)
        ensures
            r == self@.tx_id,
    {
        self.tx_id
    }

    pub fn status(&self) -> (r: DisputeStatus)
        ensures
            r == self@.status,
    {
        self.status
    }

    /// Moves the dispute to another state; what it disputes stays.
    pub fn set_status(&mut self, status: DisputeStatus)
        ensures
            final(self)@ == old(self)@.with_status(status),
    {
        self.status = status;
    }
}

} // verus!
