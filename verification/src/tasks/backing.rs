//! What is held is owed to the open disputes: as long as nothing is
//! rounded, the held part of the wallet is the sum of the amounts of the
//! transactions under dispute, and it stays within the total.

use crate::account::AccountView;
use crate::tasks::command::{CommandView, DisputeCommandAction, TransactionCommandAction};
use crate::tasks::worker::WorkerView;
use crate::transaction::{
    DisputeResolution, DisputeView, TransactionId, TransactionStatus, TransactionView,
};
use vstd::prelude::*;

verus! {

/// One more than the largest transaction id.
pub open spec fn id_bound() -> nat {
    0x1_0000_0000
}

impl WorkerView {
    /// What the transaction kept under `id` asks to be held: its amount, in
    /// units, while it is under dispute, and nothing else.
    pub open spec fn disputed_units(self, id: TransactionId) -> int {
        if self.transactions.contains_key(id) && self.transactions[id].status
            == TransactionStatus::DisputeInProgress {
            self.transactions[id].amount.units()
        } else {
            0
        }
    }

    /// The sum of the amounts under dispute among the ids below `bound`.
    pub open spec fn disputed_below(self, bound: nat) -> int
        decreases bound,
    {
        if bound == 0 {
            0
        } else {
            self.disputed_below((bound - 1) as nat) + self.disputed_units(
                (bound - 1) as TransactionId,
            )
        }
    }

    /// The sum of the amounts of all transactions under dispute, in units.
    pub open spec fn disputed_total(self) -> int {
        self.disputed_below(id_bound())
    }

    /// What is held is the sum of the amounts under dispute, and it is
    /// within the total.
    pub open spec fn backed(self) -> bool {
        &&& self.account.wallet.held.units() == self.disputed_total()
        &&& self.account.wallet.held.units() <= self.account.wallet.amount.units()
    }

    /// Nothing that `command` computes is rounded: the available funds and
    /// the new total or held part, as far as the command needs them.
    pub open spec fn unrounded(self, command: CommandView) -> bool {
        let wallet = self.account.wallet;
        match command {
            CommandView::Transaction(c) => match c.action {
                TransactionCommandAction::Deposit => wallet.amount.adds_exactly(c.tx.amount),
                TransactionCommandAction::Withdraw => {
                    &&& wallet.amount.subtracts_exactly(wallet.held)
                    &&& wallet.amount.subtracts_exactly(c.tx.amount)
                },
            },
            CommandView::Dispute(c) => match c.action {
                DisputeCommandAction::OpenDispute => {
                    &&& wallet.amount.subtracts_exactly(wallet.held)
                    &&& wallet.held.adds_exactly(self.disputed_amount(c.dispute.tx_id))
                },
                DisputeCommandAction::CancelDispute => wallet.held.subtracts_exactly(
                    self.disputed_amount(c.dispute.tx_id),
                ),
                DisputeCommandAction::ChargebackDispute => self.chargeback_unrounded(
                    c.dispute.tx_id,
                ),
            },
            CommandView::Snapshot => true,
        }
    }

    /// Two workers that agree on what every id but `id` asks to be held
    /// differ in their sums by what they differ in at `id`.
    pub proof fn lemma_disputed_below_differs_at(
        self,
        other: WorkerView,
        id: TransactionId,
        bound: nat,
    )
        requires
            bound <= id_bound(),
            forall|k: TransactionId|
                k != id ==> #[trigger] self.disputed_units(k) == other.disputed_units(k),
        ensures
            other.disputed_below(bound) == self.disputed_below(bound) + if id < bound {
                other.disputed_units(id) - self.disputed_units(id)
            } else {
                0
            },
        decreases bound,
    {
        if bound > 0 {
            self.lemma_disputed_below_differs_at(other, id, (bound - 1) as nat);
            let last = (bound - 1) as TransactionId;
            if last != id {
                assert(self.disputed_units(last) == other.disputed_units(last));
            }
        }
    }

    /// A worker that changed at `id` only holds as much more as the
    /// transaction under `id` asks for more.
    pub proof fn lemma_disputed_total_differs_at(self, other: WorkerView, id: TransactionId)
        requires
            forall|k: TransactionId|
                k != id ==> #[trigger] self.disputed_units(k) == other.disputed_units(k),
        ensures
            other.disputed_total() == self.disputed_total() + other.disputed_units(id)
                - self.disputed_units(id),
    {
        self.lemma_disputed_below_differs_at(other, id, id_bound());
    }

    /// A worker that has accepted nothing yet and holds nothing has what it
    /// holds backed.
    pub proof fn lemma_fresh_worker_is_backed(account: AccountView)
        requires
            account.wallet.held.units() == 0,
            account.wallet.amount.units() >= 0,
        ensures
            (WorkerView { account, transactions: Map::empty(), disputes: Map::empty() }).backed(),
    {
        let fresh = WorkerView { account, transactions: Map::empty(), disputes: Map::empty() };
        fresh.lemma_nothing_disputed(id_bound());
    }

    /// Where no transaction is under dispute, the sum is zero.
    pub proof fn lemma_nothing_disputed(self, bound: nat)
        requires
            forall|k: TransactionId| #[trigger] self.disputed_units(k) == 0,
        ensures
            self.disputed_below(bound) == 0,
        decreases bound,
    {
        if bound > 0 {
            self.lemma_nothing_disputed((bound - 1) as nat);
        }
    }

    /// What is held stays backed. Where the worker is well formed, what is
    /// held is the sum of the amounts under dispute and within the total,
    /// and the command changes nothing or computes nothing that is rounded,
    /// the same holds after the command.
    pub proof fn lemma_handle_keeps_backed(self, command: CommandView)
        requires
            self.well_formed(),
            self.backed(),
            self.handle(command).state != self ==> self.unrounded(command),
        ensures
            self.handle(command).state.backed(),
    {
        if self.handle(command).state != self {
            match command {
                CommandView::Transaction(c) => {
                    self.lemma_apply_keeps_backed(c.action, c.tx);
                },
                CommandView::Dispute(c) => {
                    match c.action {
                        DisputeCommandAction::OpenDispute => {
                            self.lemma_open_dispute_keeps_backed(c.dispute);
                        },
                        DisputeCommandAction::CancelDispute => {
                            self.lemma_close_dispute_keeps_backed(
                                c.dispute,
                                DisputeResolution::Cancelled,
                            );
                        },
                        DisputeCommandAction::ChargebackDispute => {
                            self.lemma_close_dispute_keeps_backed(
                                c.dispute,
                                DisputeResolution::ChargedBack,
                            );
                        },
                    }
                },
                CommandView::Snapshot => {},
            }
        }
    }

    /// A deposit or a withdrawal that is not rounded keeps what is held
    /// backed.
    pub proof fn lemma_apply_keeps_backed(
        self,
        action: TransactionCommandAction,
        tx: TransactionView,
    )
        requires
            self.backed(),
            self.apply(action, tx).result is Ok,
            match action {
                TransactionCommandAction::Deposit => self.account.wallet.amount.adds_exactly(
                    tx.amount,
                ),
                TransactionCommandAction::Withdraw => {
                    &&& self.account.wallet.amount.subtracts_exactly(self.account.wallet.held)
                    &&& self.account.wallet.amount.subtracts_exactly(tx.amount)
                },
            },
        ensures
            self.apply(action, tx).state.backed(),
    {
        let after = self.apply(action, tx).state;
        let wallet = self.account.wallet;
        self.lemma_disputed_total_differs_at(after, tx.id);
        match action {
            TransactionCommandAction::Deposit => {
                wallet.amount.lemma_sum_is_exact(tx.amount);
            },
            TransactionCommandAction::Withdraw => {
                wallet.amount.lemma_difference_is_exact(wallet.held);
                wallet.amount.lemma_difference_is_exact(tx.amount);
            },
        }
    }

    /// Opening a dispute without rounding keeps what is held backed.
    pub proof fn lemma_open_dispute_keeps_backed(self, d: DisputeView)
        requires
            self.backed(),
            self.open_dispute(d).result is Ok,
            self.account.wallet.amount.subtracts_exactly(self.account.wallet.held),
            self.account.wallet.held.adds_exactly(self.disputed_amount(d.tx_id)),
        ensures
            self.open_dispute(d).state.backed(),
    {
        let after = self.open_dispute(d).state;
        let wallet = self.account.wallet;
        self.lemma_disputed_total_differs_at(after, d.tx_id);
        wallet.amount.lemma_difference_is_exact(wallet.held);
        wallet.held.lemma_sum_is_exact(self.disputed_amount(d.tx_id));
    }

    /// Closing a dispute without rounding keeps what is held backed.
    pub proof fn lemma_close_dispute_keeps_backed(
        self,
        d: DisputeView,
        resolution: DisputeResolution,
    )
        requires
            self.well_formed(),
            self.backed(),
            self.close_dispute(d, resolution).state != self,
            match resolution {
                DisputeResolution::Cancelled => self.account.wallet.held.subtracts_exactly(
                    self.disputed_amount(d.tx_id),
                ),
                DisputeResolution::ChargedBack => self.chargeback_unrounded(d.tx_id),
            },
        ensures
            self.close_dispute(d, resolution).state.backed(),
            self.close_dispute(d, resolution).result is Ok,
    {
        let after = self.close_dispute(d, resolution).state;
        assert(self.entry_ok(d.tx_id));
        match resolution {
            DisputeResolution::Cancelled => {
                self.lemma_cancel_in_progress(d);
            },
            DisputeResolution::ChargedBack => {
                self.lemma_chargeback_in_progress(d);
            },
        }
        self.lemma_disputed_total_differs_at(after, d.tx_id);
    }
}

} // verus!
