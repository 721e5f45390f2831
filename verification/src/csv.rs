//! The records of the input, and the lines of a snapshot.

use crate::account::AccountId;
use crate::amount::{view_of, Amount, AmountView};
use crate::errors::PaymentEngineError;
use crate::text::{append_bool, append_decimal, bool_text, decimal_digits};
use crate::tasks::command::{
    CommandView, DisputeCommandAction, DisputeCommandData, DisputeCommandView,
    PaymentEngineCommand, TransactionCommandAction, TransactionCommandData,
    TransactionCommandView,
};
use crate::transaction::{
    Dispute, DisputeStatus, DisputeView, Transaction, TransactionId, TransactionKind,
    TransactionStatus, TransactionView,
};
use vstd::prelude::*;
use vstd::string::StringExecFns;

verus! {

/// What a record asks for.
#[derive(Debug, Copy, Clone, PartialEq, Eq, Structural)]
pub enum TransactionRecordType {
    Deposit,
    Withdrawal,
    Dispute,
    Resolve,
    Chargeback,
}

/// The mathematical content of a [`TransactionRecord`].
pub struct RecordView {
    pub type_: TransactionRecordType,
    pub client: AccountId,
    pub tx: TransactionId,
    /// The amount that the record carries, if it carries one.
    pub amount: Option<AmountView>,
}

impl RecordView {
    /// The transaction that a deposit or withdrawal record describes.
    pub open spec fn transaction(self, kind: TransactionKind, amount: AmountView) -> TransactionView {
        TransactionView {
            kind,
            id: self.tx,
            account_id: self.client,
            amount,
            status: TransactionStatus::Created,
        }
    }

    /// The dispute that a dispute, resolve or chargeback record refers to.
    pub open spec fn dispute(self) -> DisputeView {
        DisputeView { account_id: self.client, tx_id: self.tx, status: DisputeStatus::Created }
    }

    /// The command that a record without an amount stands for: none for a
    /// deposit or a withdrawal, which need one.
    pub open spec fn dispute_command(self) -> Option<CommandView> {
        match self.type_ {
            TransactionRecordType::Dispute => Some(
                CommandView::Dispute(
                    DisputeCommandView {
                        action: DisputeCommandAction::OpenDispute,
                        dispute: self.dispute(),
                    },
                ),
            ),
            TransactionRecordType::Resolve => Some(
                CommandView::Dispute(
                    DisputeCommandView {
                        action: DisputeCommandAction::CancelDispute,
                        dispute: self.dispute(),
                    },
                ),
            ),
            TransactionRecordType::Chargeback => Some(
                CommandView::Dispute(
                    DisputeCommandView {
                        action: DisputeCommandAction::ChargebackDispute,
                        dispute: self.dispute(),
                    },
                ),
            ),
            _ => None,
        }
    }

    /// The command that a record with an amount stands for: none for a
    /// dispute, a resolve or a chargeback, which must not carry one.
    pub open spec fn transaction_command(self, amount: AmountView) -> Option<CommandView> {
        match self.type_ {
            TransactionRecordType::Deposit => Some(
                CommandView::Transaction(
                    TransactionCommandView {
                        action: TransactionCommandAction::Deposit,
                        tx: self.transaction(TransactionKind::Deposit, amount),
                    },
                ),
            ),
            TransactionRecordType::Withdrawal => Some(
                CommandView::Transaction(
                    TransactionCommandView {
                        action: TransactionCommandAction::Withdraw,
                        tx: self.transaction(TransactionKind::Withdrawal, amount),
                    },
                ),
            ),
            _ => None,
        }
    }

    /// The command that the record stands for, if it is a valid record. A
    /// deposit or a withdrawal must carry an amount; a dispute, a resolve or
    /// a chargeback must carry none.
    pub open spec fn command(self) -> Option<CommandView> {
        match self.amount {
            Some(amount) => self.transaction_command(amount),
            None => self.dispute_command(),
        }
    }
}

/// One record of the input: what is asked, for which client, on which
/// transaction, and the amount if the record carries one.
#[derive(Debug, Copy, Clone)]
pub struct TransactionRecord {
    type_: TransactionRecordType,
    client: AccountId,
    tx: TransactionId,
    amount: Option<Amount>,
}

impl View for TransactionRecord {
    type V = RecordView;

    closed spec fn view(&self) -> RecordView {
        RecordView {
            type_: self.type_,
            client: self.client,
            tx: self.tx,
            amount: view_of(self.amount),
        }
    }
}

impl TransactionRecord {
    pub fn new(
        type_: TransactionRecordType,
        client: AccountId,
        tx: TransactionId,
        amount: Option<Amount>,
    ) -> (r: Self)
        ensures
            r@ == (RecordView { type_, client, tx, amount: view_of(amount) }),
    {
        Self { type_, client, tx, amount }
    }

    pub fn type_(&self) -> (r: TransactionRecordType)
        ensures
            r == self@.type_,
    {
        self.type_
    }

    pub fn client(&self) -> (r: AccountId)
        ensures
            r == self@.client,
    {
        self.client
    }

    pub fn tx(&self) -> (r: TransactionId)
        ensures
            r == self@.tx,
    {
        self.tx
    }

    pub fn amount(&self) -> (r: Option<Amount>)
        ensures
            view_of(r) == self@.amount,
    {
        self.amount
    }

    /// The command that the record stands for. A deposit or a withdrawal
    /// with an amount becomes a transaction that is yet to be applied; a
    /// dispute, a resolve or a chargeback without an amount opens, cancels
    /// or charges back the dispute on the transaction that the record
    /// names. A deposit or a withdrawal without an amount, and a dispute, a
    /// resolve or a chargeback that carries one, is no valid record: it is
    /// refused with `InvalidAmountFormat` and gives no command.
    pub fn try_into(self) -> (r: Result<PaymentEngineCommand, PaymentEngineError>)
        ensures
            match self@.command() {
                Some(c) => r matches Ok(command) && command@ == c,
                None => r == Err::<PaymentEngineCommand, _>(
                    PaymentEngineError::InvalidAmountFormat(),
                ),
            },
    {
        match self.amount {
            Some(amount) => {
                let kind = match self.type_ {
                    TransactionRecordType::Deposit => TransactionKind::Deposit,
                    TransactionRecordType::Withdrawal => TransactionKind::Withdrawal,
                    _ => {
                        return Err(PaymentEngineError::InvalidAmountFormat());
                    },
                };
                let tx = Transaction::new(kind, self.tx, self.client, amount);
                Ok(PaymentEngineCommand::TransactionCommand(TransactionCommandData::from(tx)))
            },
            None => {
                let action = match self.type_ {
                    TransactionRecordType::Dispute => DisputeCommandAction::OpenDispute,
                    TransactionRecordType::Resolve => DisputeCommandAction::CancelDispute,
                    TransactionRecordType::Chargeback => DisputeCommandAction::ChargebackDispute,
                    _ => {
                        return Err(PaymentEngineError::InvalidAmountFormat());
                    },
                };
                let d = Dispute::new(self.client, self.tx);
                Ok(PaymentEngineCommand::DisputeCommand(DisputeCommandData::new(action, d)))
            },
        }
    }
}

/// The first line of a snapshot, which names the columns of the lines that
/// follow.
pub open spec fn header_text() -> Seq<char> {
    "client,available,held,total,locked\n"@
}

/// The first line of a snapshot, which names the columns of the lines that
/// follow.
pub fn snapshot_header() -> (r: String)
    ensures
        r@ == header_text(),
{
    String::from_str("client,available,held,total,locked\n")
}

/// One line of a snapshot: the account's id, then its available, held and
/// total funds as they are written, then whether it is locked, separated by
/// commas and ended by a line feed.
pub open spec fn line_text(
    id: AccountId,
    available: Seq<char>,
    held: Seq<char>,
    total: Seq<char>,
    locked: bool,
) -> Seq<char> {
    decimal_digits(id as nat) + seq![','] + available + seq![','] + held + seq![','] + total
        + seq![','] + bool_text(locked) + seq!['\n']
}

/// One line of a snapshot: the account's id, then its available, held and
/// total funds as they are written, then whether it is locked, separated by
/// commas and ended by a line feed.
pub fn snapshot_line(id: AccountId, available: &str, held: &str, total: &str, locked: bool) -> (r:
    String)
    ensures
        r@ == line_text(id, available@, held@, total@, locked),
{
    proof {
        reveal_strlit(",");
        reveal_strlit("\n");
    }
    assert(","@ =~= seq![',']);
    assert("\n"@ =~= seq!['\n']);
    let mut line = String::new();
    append_decimal(&mut line, id as u32);
    line.append(",");
    line.append(available);
    line.append(",");
    line.append(held);
    line.append(",");
    line.append(total);
    line.append(",");
    append_bool(&mut line, locked);
    line.append("\n");
    assert(line@ =~= line_text(id, available@, held@, total@, locked));
    line
}

} // verus!
