//! The commands that the engine and its workers exchange. A transaction is
//! applied; a dispute is opened, cancelled or charged back; a snapshot asks
//! every account for its line.

use crate::account::AccountId;
use crate::transaction::{Dispute, DisputeView, Transaction, TransactionKind, TransactionView};
use vstd::prelude::*;
use vstd::std_specs::convert::FromSpecImpl;

verus! {

/// The mathematical content of a [`PaymentEngineCommand`].
pub enum CommandView {
    Transaction(TransactionCommandView),
    Dispute(DisputeCommandView),
    Snapshot,
}

impl CommandView {
    /// The account that the command is for. A snapshot is for all of them.
    pub open spec fn account_id(self) -> Option<AccountId> {
        match self {
            CommandView::Transaction(c) => Some(c.tx.account_id),
            CommandView::Dispute(c) => Some(c.dispute.account_id),
            CommandView::Snapshot => None,
        }
    }
}

#[derive(Debug, Copy, Clone)]
pub enum PaymentEngineCommand {
    TransactionCommand(TransactionCommandData),
    DisputeCommand(DisputeCommandData),
    /// Asks each account for its line of the snapshot.
    SendAccountsToCSV,
}

impl View for PaymentEngineCommand {
    type V = CommandView;

    open spec fn view(&self) -> CommandView {
        match self {
            PaymentEngineCommand::TransactionCommand(c) => CommandView::Transaction(c@),
            PaymentEngineCommand::DisputeCommand(c) => CommandView::Dispute(c@),
            PaymentEngineCommand::SendAccountsToCSV => CommandView::Snapshot,
        }
    }
}

#[derive(Debug, Copy, Clone, PartialEq, Eq, Structural)]
pub enum TransactionCommandAction {
    Deposit,
    Withdraw,
}

/// The action that applies a transaction of the given kind.
pub open spec fn action_of(kind: TransactionKind) -> TransactionCommandAction {
    match kind {
        TransactionKind::Deposit => TransactionCommandAction::Deposit,
        TransactionKind::Withdrawal => TransactionCommandAction::Withdraw,
    }
}

/// The mathematical content of a [`TransactionCommandData`].
pub struct TransactionCommandView {
    pub action: TransactionCommandAction,
    pub tx: TransactionView,
}

#[derive(Debug, Copy, Clone, PartialEq)]
pub struct TransactionCommandData {
    action: TransactionCommandAction,
    tx: Transaction,
}

impl View for TransactionCommandData {
    type V = TransactionCommandView;

    closed spec fn view(&self) -> TransactionCommandView {
        TransactionCommandView { action: self.action, tx: self.tx@ }
    }
}

impl TransactionCommandData {
    pub fn action(&self) -> (r: TransactionCommandAction)
        ensures
            r == self@.action,
    {
        self.action
    }

    pub fn tx(&self) -> (r: &Transaction)
        ensures
            r@ == self@.tx,
    {
        &self.tx
    }
}

impl From<Transaction> for TransactionCommandData {
    /// The command that applies `transaction`: a deposit for a deposit, a
    /// withdrawal for a withdrawal.
    fn from(transaction: Transaction) -> (r: Self)
        ensures
            r@ == (TransactionCommandView {
                action: action_of(transaction@.kind),
                tx: transaction@,
            }),
    {
        let action = match transaction.kind() {
            TransactionKind::Deposit => TransactionCommandAction::Deposit,
            TransactionKind::Withdrawal => TransactionCommandAction::Withdraw,
        };
        Self { action, tx: transaction }
    }
}

impl FromSpecImpl<Transaction> for TransactionCommandData {
    open spec fn obeys_from_spec() -> bool {
        true
    }

    closed spec fn from_spec(transaction: Transaction) -> Self {
        TransactionCommandData { action: action_of(transaction@.kind), tx: transaction }
    }
}

#[derive(Debug, Copy, Clone, PartialEq, Eq, Structural)]
pub enum DisputeCommandAction {
    OpenDispute,
    CancelDispute,
    ChargebackDispute,
}

/// The mathematical content of a [`DisputeCommandData`].
pub struct DisputeCommandView {
    pub action: DisputeCommandAction,
    pub dispute: DisputeView,
}

#[derive(Debug, Copy, Clone, PartialEq)]
pub struct DisputeCommandData {
    action: DisputeCommandAction,
    dispute: Dispute,
}

impl View for DisputeCommandData {
    type V = DisputeCommandView;

    closed spec fn view(&self) -> DisputeCommandView {
        DisputeCommandView { action: self.action, dispute: self.dispute@ }
    }
}

impl DisputeCommandData {
    pub fn new(action: DisputeCommandAction, dispute: Dispute) -> (r: Self)
        ensures
            r@ == (DisputeCommandView { action, dispute: dispute@ }),
    {
        Self { action, dispute }
    }

    pub fn action(&self) -> (r: DisputeCommandAction)
        ensures
            r == self@.action,
    {
        self.action
    }

    pub fn dispute(&self) -> (r: &Dispute)
        ensures
            r@ == self@.dispute,
    {
        &self.dispute
    }
}

} // verus!
