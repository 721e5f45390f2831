//! The worker of one account. It owns the account, the transactions that the
//! account has accepted and the disputes opened on them, and takes one
//! command at a time.

use crate::account::{Account, AccountId, AccountView};
use crate::errors::{AccountOperationError, PaymentEngineError};
use crate::tasks::command::{
    CommandView, DisputeCommandAction, PaymentEngineCommand, TransactionCommandAction,
};
use crate::transaction::{
    Dispute, DisputeResolution, DisputeStatus, DisputeView, Transaction, TransactionId,
    TransactionKind, TransactionStatus, TransactionView,
};
use std::collections::HashMap;
use vstd::prelude::*;

verus! {

broadcast use vstd::std_specs::hash::group_hash_axioms;

/// The refusal of a command by the rules of the account.
pub open spec fn refused<T>(e: AccountOperationError) -> Result<T, PaymentEngineError> {
    Err(PaymentEngineError::AccountProcessError(e))
}

/// Why a transaction in the given state cannot be disputed.
pub open spec fn transaction_state_reason(status: TransactionStatus) -> &'static str {
    match status {
        TransactionStatus::Created => "has not been processed yet",
        TransactionStatus::DisputeInProgress => "has another dispute in progress",
        TransactionStatus::ChargedBack => "has been charged back",
        TransactionStatus::Processed => "",
    }
}

/// Why a dispute in the given state cannot be closed.
pub open spec fn dispute_state_reason(status: DisputeStatus) -> &'static str {
    match status {
        DisputeStatus::Created => "has not been processed yet",
        DisputeStatus::Resolved(_) => "has already been resolved",
        DisputeStatus::InProgress => "",
    }
}

/// The state that a transaction is left in by a dispute resolved this way.
pub open spec fn status_after(resolution: DisputeResolution) -> TransactionStatus {
    match resolution {
        DisputeResolution::Cancelled => TransactionStatus::Processed,
        DisputeResolution::ChargedBack => TransactionStatus::ChargedBack,
    }
}

/// The resolution that a command to close a dispute asks for.
pub open spec fn resolution_of(action: DisputeCommandAction) -> DisputeResolution {
    match action {
        DisputeCommandAction::ChargebackDispute => DisputeResolution::ChargedBack,
        _ => DisputeResolution::Cancelled,
    }
}

/// The mathematical content of an [`AccountWorker`]: the account, and the
/// transactions and disputes by transaction id.
pub struct WorkerView {
    pub account: AccountView,
    pub transactions: Map<TransactionId, TransactionView>,
    pub disputes: Map<TransactionId, DisputeView>,
}

/// A worker after a command, and what it answers.
pub struct WorkerOutcome {
    pub state: WorkerView,
    pub result: Result<(), PaymentEngineError>,
}

/// A worker after a command of any kind, and what it answers: nothing, or
/// its line of the snapshot.
pub struct HandleOutcome {
    pub state: WorkerView,
    pub result: Result<Option<Seq<char>>, PaymentEngineError>,
}

impl WorkerView {
    /// What the worker keeps under `id` fits together. A transaction is
    /// kept under its own id and has been applied. A dispute is kept under
    /// the id of its transaction, which the worker has, and has been opened.
    /// A transaction is under dispute exactly while its dispute is in
    /// progress, and charged back exactly when its dispute ended so.
    pub open spec fn entry_ok(self, id: TransactionId) -> bool {
        let tx = self.transactions[id];
        let d = self.disputes[id];
        &&& self.transactions.contains_key(id) ==> {
            &&& tx.id == id
            &&& tx.status != TransactionStatus::Created
            &&& tx.status == TransactionStatus::DisputeInProgress <==> self.disputes.contains_key(id)
                && d.status == DisputeStatus::InProgress
            &&& tx.status == TransactionStatus::ChargedBack <==> self.disputes.contains_key(id)
                && d.status == DisputeStatus::Resolved(DisputeResolution::ChargedBack)
        }
        &&& self.disputes.contains_key(id) ==> {
            &&& self.transactions.contains_key(id)
            &&& d.tx_id == id
            &&& d.status != DisputeStatus::Created
        }
    }

    /// All that the worker keeps fits together.
    pub open spec fn well_formed(self) -> bool {
        forall|id: TransactionId| #[trigger] self.entry_ok(id)
    }

    /// The command is refused and nothing changes.
    pub open spec fn refuse(self, e: AccountOperationError) -> WorkerOutcome {
        WorkerOutcome { state: self, result: refused(e) }
    }

    /// A transaction is applied at most once: an id that the account has
    /// accepted is refused. Else the wallet decides, and a transaction that
    /// it accepts is recorded as processed.
    pub open spec fn deposit(self, tx: TransactionView) -> WorkerOutcome {
        if self.transactions.contains_key(tx.id) {
            self.refuse(AccountOperationError::DuplicatedTransaction(tx.id))
        } else {
            match self.account.deposit(tx.amount) {
                Err(e) => self.refuse(e),
                Ok(account) => WorkerOutcome {
                    state: WorkerView {
                        account,
                        transactions: self.transactions.insert(
                            tx.id,
                            tx.with_status(TransactionStatus::Processed),
                        ),
                        ..self
                    },
                    result: Ok(()),
                },
            }
        }
    }

    /// As for a deposit, with the wallet's rules for a withdrawal.
    pub open spec fn withdrawal(self, tx: TransactionView) -> WorkerOutcome {
        if self.transactions.contains_key(tx.id) {
            self.refuse(AccountOperationError::DuplicatedTransaction(tx.id))
        } else {
            match self.account.withdraw(tx.amount) {
                Err(e) => self.refuse(e),
                Ok(account) => WorkerOutcome {
                    state: WorkerView {
                        account,
                        transactions: self.transactions.insert(
                            tx.id,
                            tx.with_status(TransactionStatus::Processed),
                        ),
                        ..self
                    },
                    result: Ok(()),
                },
            }
        }
    }

    /// Opening a dispute: the transaction must be known, a deposit, and
    /// processed; its amount is then held back, the transaction is under
    /// dispute and the dispute is in progress.
    pub open spec fn open_dispute(self, d: DisputeView) -> WorkerOutcome {
        if !self.transactions.contains_key(d.tx_id) {
            self.refuse(AccountOperationError::TransactionNotFound(d.tx_id))
        } else {
            let tx = self.transactions[d.tx_id];
            if tx.kind != TransactionKind::Deposit {
                self.refuse(AccountOperationError::DisputeIsNotDeposit(tx.kind))
            } else if tx.status != TransactionStatus::Processed {
                self.refuse(
                    AccountOperationError::TransactionStateMismatch(
                        tx.id,
                        transaction_state_reason(tx.status),
                    ),
                )
            } else {
                match self.account.hold(tx.amount) {
                    Err(e) => self.refuse(e),
                    Ok(account) => WorkerOutcome {
                        state: WorkerView {
                            account,
                            transactions: self.transactions.insert(
                                d.tx_id,
                                tx.with_status(TransactionStatus::DisputeInProgress),
                            ),
                            disputes: self.disputes.insert(
                                tx.id,
                                d.with_status(DisputeStatus::InProgress),
                            ),
                        },
                        result: Ok(()),
                    },
                }
            }
        }
    }

    /// The worker once the dispute on `tx_id` is resolved, with the account
    /// as given.
    pub open spec fn resolved(
        self,
        account: AccountView,
        tx_id: TransactionId,
        resolution: DisputeResolution,
    ) -> WorkerView {
        WorkerView {
            account,
            transactions: self.transactions.insert(
                tx_id,
                self.transactions[tx_id].with_status(status_after(resolution)),
            ),
            disputes: self.disputes.insert(
                tx_id,
                self.disputes[tx_id].with_status(DisputeStatus::Resolved(resolution)),
            ),
        }
    }

    /// Closing a dispute: the transaction and its dispute must be known and
    /// the dispute in progress. The amount is released. A cancelled dispute
    /// leaves the transaction processed. A chargeback also takes the amount
    /// out of the wallet, leaves the transaction charged back and locks the
    /// account; where the wallet refuses to give the amount, the release
    /// stands and the dispute stays in progress.
    pub open spec fn close_dispute(
        self,
        d: DisputeView,
        resolution: DisputeResolution,
    ) -> WorkerOutcome {
        if !self.transactions.contains_key(d.tx_id) {
            self.refuse(AccountOperationError::TransactionNotFound(d.tx_id))
        } else if !self.disputes.contains_key(d.tx_id) {
            self.refuse(AccountOperationError::TransactionDisputeNotFound(d.tx_id))
        } else {
            let tx = self.transactions[d.tx_id];
            let stored = self.disputes[d.tx_id];
            if stored.status != DisputeStatus::InProgress {
                self.refuse(
                    AccountOperationError::TransactionStateMismatch(
                        stored.tx_id,
                        dispute_state_reason(stored.status),
                    ),
                )
            } else {
                match self.account.unhold(tx.amount) {
                    Err(e) => self.refuse(e),
                    Ok(released) => match resolution {
                        DisputeResolution::Cancelled => WorkerOutcome {
                            state: self.resolved(released, d.tx_id, resolution),
                            result: Ok(()),
                        },
                        DisputeResolution::ChargedBack => match released.withdraw(tx.amount) {
                            Err(e) => WorkerOutcome {
                                state: WorkerView { account: released, ..self },
                                result: refused(e),
                            },
                            Ok(drawn) => WorkerOutcome {
                                state: self.resolved(
                                    AccountView { locked: true, ..drawn },
                                    d.tx_id,
                                    resolution,
                                ),
                                result: Ok(()),
                            },
                        },
                    },
                }
            }
        }
    }

    /// Applying a transaction by the action that its command names.
    pub open spec fn apply(self, action: TransactionCommandAction, tx: TransactionView) -> WorkerOutcome {
        match action {
            TransactionCommandAction::Deposit => self.deposit(tx),
            TransactionCommandAction::Withdraw => self.withdrawal(tx),
        }
    }

    /// What the worker does with a command. A command for another account
    /// is refused. A transaction or a dispute goes by its own rules and
    /// answers nothing. A snapshot answers the account's line.
    pub open spec fn handle(self, command: CommandView) -> HandleOutcome {
        match command {
            CommandView::Transaction(c) => {
                if c.tx.account_id != self.account.id {
                    HandleOutcome {
                        state: self,
                        result: refused(
                            AccountOperationError::WrongAccountId(
                                c.tx.account_id,
                                self.account.id,
                            ),
                        ),
                    }
                } else {
                    let outcome = self.apply(c.action, c.tx);
                    HandleOutcome { state: outcome.state, result: silent(outcome.result) }
                }
            },
            CommandView::Dispute(c) => {
                if c.dispute.account_id != self.account.id {
                    HandleOutcome {
                        state: self,
                        result: refused(
                            AccountOperationError::WrongAccountId(
                                c.dispute.account_id,
                                self.account.id,
                            ),
                        ),
                    }
                } else {
                    let outcome = match c.action {
                        DisputeCommandAction::OpenDispute => self.open_dispute(c.dispute),
                        _ => self.close_dispute(c.dispute, resolution_of(c.action)),
                    };
                    HandleOutcome { state: outcome.state, result: silent(outcome.result) }
                }
            },
            CommandView::Snapshot => HandleOutcome {
                state: self,
                result: match self.account.record() {
                    Some(line) => Ok(Some(line)),
                    None => refused(AccountOperationError::OverflowInWallet),
                },
            },
        }
    }
}

/// The answer to a command that asks for no line.
pub open spec fn silent(result: Result<(), PaymentEngineError>) -> Result<
    Option<Seq<char>>,
    PaymentEngineError,
> {
    match result {
        Ok(_) => Ok(None),
        Err(e) => Err(e),
    }
}

/// The content of an answer.
pub open spec fn answer_view(result: Result<Option<String>, PaymentEngineError>) -> Result<
    Option<Seq<char>>,
    PaymentEngineError,
> {
    match result {
        Ok(Some(line)) => Ok(Some(line@)),
        Ok(None) => Ok(None),
        Err(e) => Err(e),
    }
}

/// The worker of one account: the account, the transactions that it has
/// accepted and the disputes that were opened on them.
pub struct AccountWorker {
    account: Account,
    transactions: HashMap<TransactionId, Transaction>,
    disputes: HashMap<TransactionId, Dispute>,
}

impl View for AccountWorker {
    type V = WorkerView;

    closed spec fn view(&self) -> WorkerView {
        WorkerView {
            account: self.account@,
            transactions: self.transactions@.map_values(|t: Transaction| t@),
            disputes: self.disputes@.map_values(|d: Dispute| d@),
        }
    }
}

impl AccountWorker {
    /// A worker for `account` that has seen no transaction and no dispute.
    pub fn new(account: Account) -> (r: Self)
        ensures
            r@ == (WorkerView {
                account: account@,
                transactions: Map::<TransactionId, TransactionView>::empty(),
                disputes: Map::<TransactionId, DisputeView>::empty(),
            }),
            r@.well_formed(),
            account@.wallet.held.units() == 0 && account@.wallet.amount.units() >= 0
                ==> r@.backed(),
    {
        proof {
            if account@.wallet.held.units() == 0 && account@.wallet.amount.units() >= 0 {
                WorkerView::lemma_fresh_worker_is_backed(account@);
            }
        }
        let r = Self { account, transactions: HashMap::new(), disputes: HashMap::new() };
        assert(r@.transactions =~= Map::<TransactionId, TransactionView>::empty());
        assert(r@.disputes =~= Map::<TransactionId, DisputeView>::empty());
        r
    }

    pub fn get_id(&self) -> (r: AccountId)
        ensures
            r == self@.account.id,
    {
        self.account.get_id()
    }

    /// The account as it stands.
    pub fn account(&self) -> (r: &Account)
        ensures
            r@ == self@.account,
    {
        &self.account
    }

    /// The transaction that the account has accepted under `id`, if any.
    pub fn transaction(&self, id: TransactionId) -> (r: Option<Transaction>)
        ensures
            match r {
                Some(t) => self@.transactions.contains_key(id) && self@.transactions[id] == t@,
                None => !self@.transactions.contains_key(id),
            },
    {
        match self.transactions.get(&id) {
            Some(t) => Some(*t),
            None => None,
        }
    }

    /// The dispute that was last opened on the transaction `id`, if any.
    pub fn dispute(&self, id: TransactionId) -> (r: Option<Dispute>)
        ensures
            match r {
                Some(d) => self@.disputes.contains_key(id) && self@.disputes[id] == d@,
                None => !self@.disputes.contains_key(id),
            },
    {
        match self.disputes.get(&id) {
            Some(d) => Some(*d),
            None => None,
        }
    }

    /// Takes one command. A command for another account is refused with
    /// `WrongAccountId`. A snapshot changes nothing and answers the
    /// account's line, or `OverflowInWallet` where the available funds do
    /// not fit in a decimal amount; any other command answers no line.
    pub fn handle(&mut self, command: &PaymentEngineCommand) -> (r: Result<
        Option<String>,
        PaymentEngineError,
    >)
        ensures
            final(self)@ == old(self)@.handle(command@).state,
            answer_view(r) == old(self)@.handle(command@).result,
            old(self)@.well_formed() ==> final(self)@.well_formed(),
            old(self)@.well_formed() && old(self)@.backed() && (final(self)@ != old(self)@
                ==> old(self)@.unrounded(command@)) ==> final(self)@.backed(),
    {
        proof {
            if old(self)@.well_formed() {
                old(self)@.lemma_handle_keeps_well_formed(command@);
                if old(self)@.backed() && (old(self)@.handle(command@).state != old(self)@
                    ==> old(self)@.unrounded(command@)) {
                    old(self)@.lemma_handle_keeps_backed(command@);
                }
            }
        }
        match command {
            PaymentEngineCommand::TransactionCommand(sub_command) => {
                if sub_command.tx().account_id() != self.account.get_id() {
                    return Err(
                        PaymentEngineError::from(
                            AccountOperationError::WrongAccountId(
                                sub_command.tx().account_id(),
                                self.account.get_id(),
                            ),
                        ),
                    );
                }
                let result = match sub_command.action() {
                    TransactionCommandAction::Deposit => self.handle_deposit(sub_command.tx()),
                    TransactionCommandAction::Withdraw => self.handle_withdrawal(
                        sub_command.tx(),
                    ),
                };
                match result {
                    Ok(_) => Ok(None),
                    Err(e) => Err(e),
                }
            },
            PaymentEngineCommand::DisputeCommand(sub_command) => {
                if sub_command.dispute().account_id() != self.account.get_id() {
                    return Err(
                        PaymentEngineError::from(
                            AccountOperationError::WrongAccountId(
                                sub_command.dispute().account_id(),
                                self.account.get_id(),
                            ),
                        ),
                    );
                }
                let result = match sub_command.action() {
                    DisputeCommandAction::OpenDispute => self.handle_new_dispute(
                        sub_command.dispute(),
                    ),
                    DisputeCommandAction::CancelDispute => self.handle_close_dispute(
                        sub_command.dispute(),
                        DisputeResolution::Cancelled,
                    ),
                    DisputeCommandAction::ChargebackDispute => self.handle_close_dispute(
                        sub_command.dispute(),
                        DisputeResolution::ChargedBack,
                    ),
                };
                match result {
                    Ok(_) => Ok(None),
                    Err(e) => Err(e),
                }
            },
            PaymentEngineCommand::SendAccountsToCSV => {
                match self.account.to_record() {
                    Some(line) => Ok(Some(line)),
                    None => Err(PaymentEngineError::from(AccountOperationError::OverflowInWallet)),
                }
            },
        }
    }

    /// Applies a deposit. An id that the account has already accepted is
    /// refused with `DuplicatedTransaction`, and a deposit that the wallet
    /// refuses is not recorded; either way nothing changes.
    pub fn handle_deposit(&mut self, transaction: &Transaction) -> (r: Result<
        (),
        PaymentEngineError,
    >)
        ensures
            final(self)@ == old(self)@.deposit(transaction@).state,
            r == old(self)@.deposit(transaction@).result,
            r is Err ==> final(self)@ == old(self)@,
            old(self)@.transactions.contains_key(transaction@.id) ==> r == refused::<()>(
                AccountOperationError::DuplicatedTransaction(transaction@.id),
            ),
            old(self)@.well_formed() ==> final(self)@.well_formed(),
    {
        proof {
            if old(self)@.well_formed() {
                old(self)@.lemma_apply_keeps_well_formed(
                    TransactionCommandAction::Deposit,
                    transaction@,
                );
            }
        }
        if self.transactions.contains_key(&transaction.id()) {
            return Err(
                PaymentEngineError::from(
                    AccountOperationError::DuplicatedTransaction(transaction.id()),
                ),
            );
        }
        if let Err(e) = self.account.deposit(transaction.amount()) {
            return Err(PaymentEngineError::from(e));
        }
        let mut tx = *transaction;
        tx.set_status(TransactionStatus::Processed);
        self.transactions.insert(tx.id(), tx);
        assert(self@.transactions =~= old(self)@.transactions.insert(tx@.id, tx@));
        Ok(())
    }

    /// Applies a withdrawal. An id that the account has already accepted is
    /// refused with `DuplicatedTransaction`, and a withdrawal that the
    /// wallet refuses is not recorded; either way nothing changes.
    pub fn handle_withdrawal(&mut self, transaction: &Transaction) -> (r: Result<
        (),
        PaymentEngineError,
    >)
        ensures
            final(self)@ == old(self)@.withdrawal(transaction@).state,
            r == old(self)@.withdrawal(transaction@).result,
            r is Err ==> final(self)@ == old(self)@,
            old(self)@.transactions.contains_key(transaction@.id) ==> r == refused::<()>(
                AccountOperationError::DuplicatedTransaction(transaction@.id),
            ),
            old(self)@.well_formed() ==> final(self)@.well_formed(),
    {
        proof {
            if old(self)@.well_formed() {
                old(self)@.lemma_apply_keeps_well_formed(
                    TransactionCommandAction::Withdraw,
                    transaction@,
                );
            }
        }
        if self.transactions.contains_key(&transaction.id()) {
            return Err(
                PaymentEngineError::from(
                    AccountOperationError::DuplicatedTransaction(transaction.id()),
                ),
            );
        }
        if let Err(e) = self.account.withdraw(transaction.amount()) {
            return Err(PaymentEngineError::from(e));
        }
        let mut tx = *transaction;
        tx.set_status(TransactionStatus::Processed);
        self.transactions.insert(tx.id(), tx);
        assert(self@.transactions =~= old(self)@.transactions.insert(tx@.id, tx@));
        Ok(())
    }

    /// Opens a dispute on the transaction that `d` names. It succeeds only
    /// on a deposit that is processed and whose amount the wallet can hold
    /// back; a refusal changes nothing.
    pub fn handle_new_dispute(&mut self, d: &Dispute) -> (r: Result<(), PaymentEngineError>)
        ensures
            final(self)@ == old(self)@.open_dispute(d@).state,
            r == old(self)@.open_dispute(d@).result,
            r is Err ==> final(self)@ == old(self)@,
            r is Ok ==> {
                let tx = old(self)@.transactions[d@.tx_id];
                &&& old(self)@.transactions.contains_key(d@.tx_id)
                &&& tx.kind == TransactionKind::Deposit
                &&& tx.status == TransactionStatus::Processed
            },
            old(self)@.well_formed() ==> final(self)@.well_formed(),
    {
        proof {
            if old(self)@.well_formed() {
                old(self)@.lemma_open_dispute_keeps_well_formed(d@);
            }
        }
        let mut disputed_tx = match self.transactions.get(&d.tx_id()) {
            Some(tx) => *tx,
            None => {
                return Err(
                    PaymentEngineError::from(AccountOperationError::TransactionNotFound(d.tx_id())),
                );
            },
        };
        if disputed_tx.kind() != TransactionKind::Deposit {
            return Err(
                PaymentEngineError::from(
                    AccountOperationError::DisputeIsNotDeposit(disputed_tx.kind()),
                ),
            );
        }
        if disputed_tx.status() != TransactionStatus::Processed {
            let reason = match disputed_tx.status() {
                TransactionStatus::Created => "has not been processed yet",
                TransactionStatus::DisputeInProgress => "has another dispute in progress",
                TransactionStatus::ChargedBack => "has been charged back",
                TransactionStatus::Processed => "",
            };
            return Err(
                PaymentEngineError::from(
                    AccountOperationError::TransactionStateMismatch(disputed_tx.id(), reason),
                ),
            );
        }
        if let Err(e) = self.account.hold(disputed_tx.amount()) {
            return Err(PaymentEngineError::from(e));
        }
        disputed_tx.set_status(TransactionStatus::DisputeInProgress);
        self.transactions.insert(d.tx_id(), disputed_tx);
        let mut updated_d = *d;
        updated_d.set_status(DisputeStatus::InProgress);
        self.disputes.insert(disputed_tx.id(), updated_d);
        assert(self@.transactions =~= old(self)@.transactions.insert(d@.tx_id, disputed_tx@));
        assert(self@.disputes =~= old(self)@.disputes.insert(disputed_tx@.id, updated_d@));
        Ok(())
    }

    /// Closes the dispute on the transaction that `d` names, which must be
    /// in progress. The amount is released; a chargeback also takes it out
    /// of the wallet and locks the account. Where the release is refused,
    /// nothing changes.
    pub fn handle_close_dispute(&mut self, d: &Dispute, resolution: DisputeResolution) -> (r:
        Result<(), PaymentEngineError>)
        ensures
            final(self)@ == old(self)@.close_dispute(d@, resolution).state,
            r == old(self)@.close_dispute(d@, resolution).result,
            r is Ok ==> {
                &&& old(self)@.transactions.contains_key(d@.tx_id)
                &&& old(self)@.disputes.contains_key(d@.tx_id)
                &&& old(self)@.disputes[d@.tx_id].status == DisputeStatus::InProgress
            },
            old(self)@.well_formed() ==> final(self)@.well_formed(),
    {
        proof {
            if old(self)@.well_formed() {
                old(self)@.lemma_close_dispute_keeps_well_formed(d@, resolution);
            }
        }
        let mut disputed_tx = match self.transactions.get(&d.tx_id()) {
            Some(tx) => *tx,
            None => {
                return Err(
                    PaymentEngineError::from(AccountOperationError::TransactionNotFound(d.tx_id())),
                );
            },
        };
        let mut stored_dispute = match self.disputes.get(&d.tx_id()) {
            Some(stored) => *stored,
            None => {
                return Err(
                    PaymentEngineError::from(
                        AccountOperationError::TransactionDisputeNotFound(d.tx_id()),
                    ),
                );
            },
        };
        if stored_dispute.status() != DisputeStatus::InProgress {
            let reason = match stored_dispute.status() {
                DisputeStatus::Created => "has not been processed yet",
                DisputeStatus::Resolved(_) => "has already been resolved",
                DisputeStatus::InProgress => "",
            };
            return Err(
                PaymentEngineError::from(
                    AccountOperationError::TransactionStateMismatch(
                        stored_dispute.tx_id(),
                        reason,
                    ),
                ),
            );
        }
        if let Err(e) = self.account.unhold(disputed_tx.amount()) {
            return Err(PaymentEngineError::from(e));
        }
        match resolution {
            DisputeResolution::Cancelled => {
                disputed_tx.set_status(TransactionStatus::Processed);
            },
            DisputeResolution::ChargedBack => {
                if let Err(e) = self.account.withdraw(disputed_tx.amount()) {
                    assert(self@.transactions =~= old(self)@.transactions);
                    assert(self@.disputes =~= old(self)@.disputes);
                    return Err(PaymentEngineError::from(e));
                }
                disputed_tx.set_status(TransactionStatus::ChargedBack);
                self.account.lock();
            },
        }
        self.transactions.insert(d.tx_id(), disputed_tx);
        stored_dispute.set_status(DisputeStatus::Resolved(resolution));
        self.disputes.insert(d.tx_id(), stored_dispute);
        assert(self@.transactions =~= old(self)@.transactions.insert(d@.tx_id, disputed_tx@));
        assert(self@.disputes =~= old(self)@.disputes.insert(d@.tx_id, stored_dispute@));
        Ok(())
    }
}

} // verus!
