//! What holds of a worker over several commands: what it keeps stays
//! consistent, a transaction is applied at most once, and a dispute that is
//! opened and then closed leaves the money where it belongs.

use crate::account::AccountView;
use crate::amount::AmountView;
use crate::errors::{AccountOperationError, PaymentEngineError};
use crate::tasks::command::{CommandView, TransactionCommandAction};
use crate::tasks::worker::WorkerView;
use crate::transaction::{
    DisputeResolution, DisputeStatus, DisputeView, TransactionId, TransactionKind,
    TransactionStatus, TransactionView,
};
use vstd::prelude::*;

verus! {

/// Whether a transaction in state `from` can be in state `to` one command
/// later.
pub open spec fn may_follow(from: TransactionStatus, to: TransactionStatus) -> bool {
    ||| to == from
    ||| from == TransactionStatus::Processed && to == TransactionStatus::DisputeInProgress
    ||| from == TransactionStatus::DisputeInProgress && to == TransactionStatus::Processed
    ||| from == TransactionStatus::DisputeInProgress && to == TransactionStatus::ChargedBack
}

impl WorkerView {
    /// Applying a transaction keeps the worker well formed.
    pub proof fn lemma_apply_keeps_well_formed(
        self,
        action: TransactionCommandAction,
        tx: TransactionView,
    )
        requires
            self.well_formed(),
        ensures
            self.apply(action, tx).state.well_formed(),
    {
        let after = self.apply(action, tx).state;
        assert forall|id: TransactionId| #[trigger] after.entry_ok(id) by {
            assert(self.entry_ok(id));
        }
    }

    /// Opening a dispute keeps the worker well formed.
    pub proof fn lemma_open_dispute_keeps_well_formed(self, d: DisputeView)
        requires
            self.well_formed(),
        ensures
            self.open_dispute(d).state.well_formed(),
    {
        let after = self.open_dispute(d).state;
        assert(self.entry_ok(d.tx_id));
        assert forall|id: TransactionId| #[trigger] after.entry_ok(id) by {
            assert(self.entry_ok(id));
        }
    }

    /// Closing a dispute keeps the worker well formed.
    pub proof fn lemma_close_dispute_keeps_well_formed(
        self,
        d: DisputeView,
        resolution: DisputeResolution,
    )
        requires
            self.well_formed(),
        ensures
            self.close_dispute(d, resolution).state.well_formed(),
    {
        let after = self.close_dispute(d, resolution).state;
        assert(self.entry_ok(d.tx_id));
        assert forall|id: TransactionId| #[trigger] after.entry_ok(id) by {
            assert(self.entry_ok(id));
        }
    }

    /// Whatever the command, the worker stays well formed.
    pub proof fn lemma_handle_keeps_well_formed(self, command: CommandView)
        requires
            self.well_formed(),
        ensures
            self.handle(command).state.well_formed(),
    {
        match command {
            CommandView::Transaction(c) => {
                self.lemma_apply_keeps_well_formed(c.action, c.tx);
            },
            CommandView::Dispute(c) => {
                self.lemma_open_dispute_keeps_well_formed(c.dispute);
                self.lemma_close_dispute_keeps_well_formed(
                    c.dispute,
                    DisputeResolution::Cancelled,
                );
                self.lemma_close_dispute_keeps_well_formed(
                    c.dispute,
                    DisputeResolution::ChargedBack,
                );
            },
            CommandView::Snapshot => {},
        }
    }

    /// A transaction that the worker has accepted is never forgotten, and
    /// it stays what it was: only its state moves.
    pub proof fn lemma_accepted_transactions_stay(self, command: CommandView, id: TransactionId)
        requires
            self.transactions.contains_key(id),
        ensures
            self.handle(command).state.transactions.contains_key(id),
            self.handle(command).state.transactions[id] == self.transactions[id].with_status(
                self.handle(command).state.transactions[id].status,
            ),
    {
    }

    /// A transaction moves along its lifecycle only: a processed one may
    /// come under dispute, a disputed one may go back to processed or be
    /// charged back, and one that was charged back stays so.
    pub proof fn lemma_status_follows_lifecycle(self, command: CommandView, id: TransactionId)
        requires
            self.well_formed(),
            self.transactions.contains_key(id),
        ensures
            may_follow(
                self.transactions[id].status,
                self.handle(command).state.transactions[id].status,
            ),
    {
        assert(self.entry_ok(id));
        match command {
            CommandView::Dispute(c) => {
                assert(self.entry_ok(c.dispute.tx_id));
            },
            _ => {},
        }
    }

    /// A locked account stays locked, whatever the command.
    pub proof fn lemma_lock_is_permanent(self, command: CommandView)
        requires
            self.account.locked,
        ensures
            self.handle(command).state.account.locked,
            self.handle(command).state.account.id == self.account.id,
    {
    }

    /// A transaction id is accepted once. After a deposit or a withdrawal
    /// was accepted, another submission under the same id, whatever else it
    /// says, is refused as a duplicate and changes nothing.
    pub proof fn lemma_second_submission_is_refused(
        self,
        action: TransactionCommandAction,
        tx: TransactionView,
        again_action: TransactionCommandAction,
        again: TransactionView,
    )
        requires
            self.apply(action, tx).result is Ok,
            again.id == tx.id,
        ensures
            self.apply(action, tx).state.apply(again_action, again) == self.apply(
                action,
                tx,
            ).state.refuse(AccountOperationError::DuplicatedTransaction(tx.id)),
    {
    }

    /// A dispute on a transaction that is not a deposit, that is under
    /// dispute already or that was charged back is refused, and nothing
    /// changes.
    pub proof fn lemma_undisputable_is_refused(self, d: DisputeView)
        requires
            self.transactions.contains_key(d.tx_id),
            self.transactions[d.tx_id].kind != TransactionKind::Deposit
                || self.transactions[d.tx_id].status == TransactionStatus::DisputeInProgress
                || self.transactions[d.tx_id].status == TransactionStatus::ChargedBack,
        ensures
            self.open_dispute(d).result is Err,
            self.open_dispute(d).state == self,
    {
    }

    /// The amount that a dispute on `tx_id` is about.
    pub open spec fn disputed_amount(self, tx_id: TransactionId) -> AmountView {
        self.transactions[tx_id].amount
    }

    /// Cancelling a dispute after opening it puts back what was held. Where
    /// the dispute `d` is opened and a cancel for the same transaction is
    /// then accepted, and neither the hold nor the release is rounded, what
    /// is held is again what it was before the dispute, the total and the
    /// lock are untouched, the transaction is processed again and the
    /// dispute is resolved as cancelled.
    pub proof fn lemma_cancel_restores_held(self, d: DisputeView, cancel: DisputeView)
        requires
            cancel.tx_id == d.tx_id,
            self.open_dispute(d).result is Ok,
            self.open_dispute(d).state.close_dispute(cancel, DisputeResolution::Cancelled).result
                is Ok,
            self.account.wallet.held.adds_exactly(self.disputed_amount(d.tx_id)),
            self.open_dispute(d).state.account.wallet.held.subtracts_exactly(
                self.disputed_amount(d.tx_id),
            ),
        ensures
            ({
                let end = self.open_dispute(d).state.close_dispute(
                    cancel,
                    DisputeResolution::Cancelled,
                ).state;
                &&& end.account.wallet.held.units() == self.account.wallet.held.units()
                &&& end.account.wallet.amount == self.account.wallet.amount
                &&& end.account.locked == self.account.locked
                &&& end.account.id == self.account.id
                &&& end.transactions[d.tx_id] == self.transactions[d.tx_id]
                &&& end.transactions[d.tx_id].status == TransactionStatus::Processed
                &&& end.disputes[d.tx_id].status == DisputeStatus::Resolved(
                    DisputeResolution::Cancelled,
                )
            }),
    {
        let amount = self.disputed_amount(d.tx_id);
        let opened = self.open_dispute(d).state;
        self.account.wallet.held.lemma_sum_is_exact(amount);
        opened.account.wallet.held.lemma_difference_is_exact(amount);
    }

    /// A chargeback after opening a dispute takes the disputed sum away for
    /// good. Where the dispute `d` is opened and a chargeback for the same
    /// transaction is then accepted, and nothing is rounded, what is held
    /// is again what it was before the dispute, the total is less by the
    /// disputed sum, the transaction is charged back, the dispute is
    /// resolved so, and the account is locked: from then on it refuses
    /// every deposit, withdrawal, hold and release.
    pub proof fn lemma_chargeback_takes_disputed_sum(
        self,
        d: DisputeView,
        chargeback: DisputeView,
        later: AmountView,
    )
        requires
            chargeback.tx_id == d.tx_id,
            self.open_dispute(d).result is Ok,
            self.open_dispute(d).state.close_dispute(
                chargeback,
                DisputeResolution::ChargedBack,
            ).result is Ok,
            self.account.wallet.held.adds_exactly(self.disputed_amount(d.tx_id)),
            self.open_dispute(d).state.account.wallet.held.subtracts_exactly(
                self.disputed_amount(d.tx_id),
            ),
            self.account.wallet.amount.subtracts_exactly(self.disputed_amount(d.tx_id)),
        ensures
            ({
                let end = self.open_dispute(d).state.close_dispute(
                    chargeback,
                    DisputeResolution::ChargedBack,
                ).state;
                let locked = Err::<AccountView, _>(
                    AccountOperationError::AccountLocked(self.account.id),
                );
                &&& end.account.wallet.held.units() == self.account.wallet.held.units()
                &&& end.account.wallet.amount.units() == self.account.wallet.amount.units()
                    - self.disputed_amount(d.tx_id).units()
                &&& end.account.locked
                &&& end.account.id == self.account.id
                &&& end.transactions[d.tx_id].status == TransactionStatus::ChargedBack
                &&& end.disputes[d.tx_id].status == DisputeStatus::Resolved(
                    DisputeResolution::ChargedBack,
                )
                &&& end.account.deposit(later) == locked
                &&& end.account.withdraw(later) == locked
                &&& end.account.hold(later) == locked
                &&& end.account.unhold(later) == locked
            }),
    {
        let amount = self.disputed_amount(d.tx_id);
        let opened = self.open_dispute(d).state;
        self.account.wallet.held.lemma_sum_is_exact(amount);
        opened.account.wallet.held.lemma_difference_is_exact(amount);
        self.account.wallet.amount.lemma_difference_is_exact(amount);
    }

    /// Cancelling a dispute that is in progress. Where the account is not
    /// locked, the disputed amount is positive and within what is held, and
    /// the release is a value, which it is wherever it is not rounded, the
    /// cancel is accepted. The transaction is then processed and else what
    /// it was, the dispute is resolved as cancelled, what is held is what
    /// the release leaves, and nothing else changes.
    pub proof fn lemma_cancel_in_progress(self, d: DisputeView)
        requires
            self.transactions.contains_key(d.tx_id),
            self.disputes.contains_key(d.tx_id),
            self.disputes[d.tx_id].status == DisputeStatus::InProgress,
            !self.account.locked,
            0 < self.disputed_amount(d.tx_id).units() <= self.account.wallet.held.units(),
            self.account.wallet.held.subtracts_exactly(self.disputed_amount(d.tx_id))
                || self.account.wallet.held.difference(self.disputed_amount(d.tx_id)) is Some,
        ensures
            ({
                let end = self.close_dispute(d, DisputeResolution::Cancelled);
                let held = self.account.wallet.held;
                let amount = self.disputed_amount(d.tx_id);
                &&& end.result == Ok::<(), PaymentEngineError>(())
                &&& end.state.transactions == self.transactions.insert(
                    d.tx_id,
                    self.transactions[d.tx_id].with_status(TransactionStatus::Processed),
                )
                &&& end.state.disputes == self.disputes.insert(
                    d.tx_id,
                    self.disputes[d.tx_id].with_status(
                        DisputeStatus::Resolved(DisputeResolution::Cancelled),
                    ),
                )
                &&& held.difference(amount) matches Some(rest) && end.state.account
                    == self.account.with_held(rest)
                &&& held.subtracts_exactly(amount) ==> end.state.account.wallet.held.units()
                    == held.units() - amount.units()
            }),
    {
        let held = self.account.wallet.held;
        let amount = self.disputed_amount(d.tx_id);
        if held.subtracts_exactly(amount) {
            held.lemma_difference_is_exact(amount);
        }
    }

    /// A chargeback on a dispute that is in progress. Where the account is
    /// not locked, the disputed amount is positive and within what is held,
    /// what is held is within the total, and nothing is rounded, the
    /// chargeback is accepted. The transaction is then charged back and
    /// else what it was, the dispute is resolved so, the account is locked,
    /// what is held and the total are both less by the disputed amount, and
    /// nothing else changes.
    pub proof fn lemma_chargeback_in_progress(self, d: DisputeView)
        requires
            self.transactions.contains_key(d.tx_id),
            self.disputes.contains_key(d.tx_id),
            self.disputes[d.tx_id].status == DisputeStatus::InProgress,
            !self.account.locked,
            0 < self.disputed_amount(d.tx_id).units() <= self.account.wallet.held.units(),
            self.account.wallet.held.units() <= self.account.wallet.amount.units(),
            self.chargeback_unrounded(d.tx_id),
        ensures
            ({
                let end = self.close_dispute(d, DisputeResolution::ChargedBack);
                let wallet = self.account.wallet;
                let amount = self.disputed_amount(d.tx_id);
                &&& end.result == Ok::<(), PaymentEngineError>(())
                &&& end.state.transactions == self.transactions.insert(
                    d.tx_id,
                    self.transactions[d.tx_id].with_status(TransactionStatus::ChargedBack),
                )
                &&& end.state.disputes == self.disputes.insert(
                    d.tx_id,
                    self.disputes[d.tx_id].with_status(
                        DisputeStatus::Resolved(DisputeResolution::ChargedBack),
                    ),
                )
                &&& end.state.account.locked
                &&& end.state.account.id == self.account.id
                &&& end.state.account.wallet.held == wallet.held.aligned_difference(amount)
                &&& end.state.account.wallet.amount == wallet.amount.aligned_difference(amount)
                &&& end.state.account.wallet.held.units() == wallet.held.units() - amount.units()
                &&& end.state.account.wallet.amount.units() == wallet.amount.units()
                    - amount.units()
            }),
    {
        let wallet = self.account.wallet;
        let amount = self.disputed_amount(d.tx_id);
        let released = wallet.held.aligned_difference(amount);
        wallet.held.lemma_difference_is_exact(amount);
        wallet.amount.lemma_difference_is_exact(released);
        wallet.amount.lemma_difference_is_exact(amount);
    }

    /// None of the three differences of a chargeback on `tx_id` is rounded:
    /// the release, the available funds after it, and the withdrawal.
    pub open spec fn chargeback_unrounded(self, tx_id: TransactionId) -> bool {
        let wallet = self.account.wallet;
        let amount = self.disputed_amount(tx_id);
        &&& wallet.held.subtracts_exactly(amount)
        &&& wallet.amount.subtracts_exactly(wallet.held.aligned_difference(amount))
        &&& wallet.amount.subtracts_exactly(amount)
    }

    /// A dispute that was just opened can be charged back. Where the worker
    /// is well formed, nothing was held below zero and nothing is rounded,
    /// neither the available funds and the hold at the opening nor the
    /// chargeback itself, a chargeback for the transaction of a dispute
    /// that was opened is accepted.
    pub proof fn lemma_opened_dispute_can_be_charged_back(
        self,
        d: DisputeView,
        chargeback: DisputeView,
    )
        requires
            self.well_formed(),
            chargeback.tx_id == d.tx_id,
            self.open_dispute(d).result is Ok,
            self.account.wallet.held.units() >= 0,
            self.account.wallet.amount.subtracts_exactly(self.account.wallet.held),
            self.account.wallet.held.adds_exactly(self.disputed_amount(d.tx_id)),
            self.open_dispute(d).state.chargeback_unrounded(d.tx_id),
        ensures
            self.open_dispute(d).state.close_dispute(
                chargeback,
                DisputeResolution::ChargedBack,
            ).result is Ok,
    {
        let amount = self.disputed_amount(d.tx_id);
        let wallet = self.account.wallet;
        let opened = self.open_dispute(d).state;
        assert(self.entry_ok(d.tx_id));
        wallet.held.lemma_units_sign();
        amount.lemma_units_sign();
        wallet.amount.lemma_difference_is_exact(wallet.held);
        wallet.held.lemma_sum_is_exact(amount);
        opened.lemma_chargeback_in_progress(chargeback);
    }

    /// A dispute that was just opened can be cancelled. Where the worker is
    /// well formed, nothing was held below zero and the hold is not rounded,
    /// a cancel for the transaction of a dispute that was opened is
    /// accepted, and its release is not rounded either.
    pub proof fn lemma_opened_dispute_can_be_cancelled(self, d: DisputeView, cancel: DisputeView)
        requires
            self.well_formed(),
            cancel.tx_id == d.tx_id,
            self.open_dispute(d).result is Ok,
            self.account.wallet.held.units() >= 0,
            self.account.wallet.held.adds_exactly(self.disputed_amount(d.tx_id)),
        ensures
            self.open_dispute(d).state.close_dispute(cancel, DisputeResolution::Cancelled).result
                is Ok,
            self.open_dispute(d).state.account.wallet.held.subtracts_exactly(
                self.disputed_amount(d.tx_id),
            ),
    {
        let amount = self.disputed_amount(d.tx_id);
        let held = self.account.wallet.held;
        let opened = self.open_dispute(d).state;
        assert(self.entry_ok(d.tx_id));
        held.lemma_units_sign();
        amount.lemma_units_sign();
        held.lemma_sum_is_exact(amount);
        held.lemma_sum_can_be_undone(amount);
        opened.account.wallet.held.lemma_difference_is_exact(amount);
    }
}

} // verus!
