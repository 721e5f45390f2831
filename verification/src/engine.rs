//! The router. It sends each command to the worker of its account, knows
//! which accounts have a worker, and keeps the ids of the transactions that
//! went through.
//!
//! The router decides and remembers. Creating workers and moving commands
//! over channels is left to the caller, who asks [`PaymentEngine::handle`]
//! where a command goes, delivers it, and reports the delivery with
//! [`PaymentEngine::record_delivery`].

use crate::account::AccountId;
use crate::csv::{header_text, snapshot_header};
use crate::tasks::command::{
    CommandView, DisputeCommandData, PaymentEngineCommand, TransactionCommandData,
};
use crate::transaction::TransactionId;
use std::collections::HashSet;
use vstd::prelude::*;

verus! {

broadcast use vstd::std_specs::hash::group_hash_axioms;

/// The mathematical content of a [`PaymentEngine`].
pub struct EngineView {
    /// The accounts that have a worker.
    pub workers: Set<AccountId>,
    /// The accounts whose worker has not been waited for yet, in the order
    /// in which the workers were created.
    pub joins: Seq<AccountId>,
    /// The ids of the transactions that were delivered.
    pub processed: Set<TransactionId>,
}

impl EngineView {
    /// Each worker is waited for once: the accounts with a worker are those
    /// in the order of creation, and none stands there twice.
    pub open spec fn consistent(self) -> bool {
        &&& self.joins.no_duplicates()
        &&& self.joins.to_set() =~= self.workers
    }

    /// Where a command for `account` goes: to its worker, which may have to
    /// be created.
    pub open spec fn route(self, account: AccountId) -> Routing {
        if self.workers.contains(account) {
            Routing::ToWorker(account)
        } else {
            Routing::ToNewWorker(account)
        }
    }

    /// The router once `account` has a worker.
    pub open spec fn with_worker(self, account: AccountId) -> EngineView {
        if self.workers.contains(account) {
            self
        } else {
            EngineView {
                workers: self.workers.insert(account),
                joins: self.joins.push(account),
                ..self
            }
        }
    }

    /// The router once `command` was delivered: the account has a worker,
    /// and the id of a transaction is kept.
    pub open spec fn after_delivery(self, command: CommandView) -> EngineView {
        match command {
            CommandView::Transaction(c) => EngineView {
                processed: self.processed.insert(c.tx.id),
                ..self.with_worker(c.tx.account_id)
            },
            CommandView::Dispute(c) => self.with_worker(c.dispute.account_id),
            CommandView::Snapshot => self,
        }
    }

    /// The command is a transaction whose id was delivered before.
    pub open spec fn repeats(self, command: CommandView) -> bool {
        command matches CommandView::Transaction(c) && self.processed.contains(c.tx.id)
    }

    /// Delivering a command keeps the router consistent.
    pub proof fn lemma_delivery_keeps_consistent(self, command: CommandView)
        requires
            self.consistent(),
        ensures
            self.after_delivery(command).consistent(),
    {
        match command.account_id() {
            Some(account) => {
                self.lemma_worker_keeps_consistent(account);
            },
            None => {},
        }
    }

    /// What the router has delivered it does not forget: the ids are kept,
    /// a worker stays, and a transaction that was delivered would repeat.
    pub proof fn lemma_delivery_is_remembered(self, command: CommandView)
        ensures
            self.processed.subset_of(self.after_delivery(command).processed),
            self.workers.subset_of(self.after_delivery(command).workers),
            command is Transaction ==> self.after_delivery(command).repeats(command),
            command.account_id() matches Some(account) ==> self.after_delivery(
                command,
            ).workers.contains(account),
    {
    }

    /// Creating a worker keeps the router consistent.
    pub proof fn lemma_worker_keeps_consistent(self, account: AccountId)
        requires
            self.consistent(),
        ensures
            self.with_worker(account).consistent(),
    {
        if !self.workers.contains(account) {
            self.joins.lemma_push_to_set_commute(account);
            assert(!self.joins.contains(account));
            assert(self.joins.push(account).no_duplicates());
        }
    }
}

/// Where a command goes.
#[derive(Debug, PartialEq, Eq)]
pub enum Routing {
    /// To the worker of this account, which exists.
    ToWorker(AccountId),
    /// To the worker of this account, which has to be created first.
    ToNewWorker(AccountId),
    /// To whoever asked for the snapshot goes the header line; then the
    /// command goes to the workers of these accounts, each of which answers
    /// with its own line.
    ToAllWorkers(String, Vec<AccountId>),
}

/// The router: which accounts have a worker, in which order the workers
/// were created, and which transaction ids went through.
#[derive(Debug)]
pub struct PaymentEngine {
    account_workers: HashSet<AccountId>,
    worker_joins: Vec<AccountId>,
    processed_transaction_ids: HashSet<TransactionId>,
}

impl View for PaymentEngine {
    type V = EngineView;

    closed spec fn view(&self) -> EngineView {
        EngineView {
            workers: self.account_workers@,
            joins: self.worker_joins@,
            processed: self.processed_transaction_ids@,
        }
    }
}

impl PaymentEngine {
    /// A router without workers that has delivered nothing.
    pub fn new() -> (r: Self)
        ensures
            r@ == (EngineView {
                workers: Set::<AccountId>::empty(),
                joins: Seq::<AccountId>::empty(),
                processed: Set::<TransactionId>::empty(),
            }),
            r@.consistent(),
    {
        Self {
            account_workers: HashSet::new(),
            worker_joins: Vec::new(),
            processed_transaction_ids: HashSet::new(),
        }
    }

    /// Whether a transaction with this id was delivered before.
    pub fn is_processed(&self, id: TransactionId) -> (r: bool)
        ensures
            r == self@.processed.contains(id),
    {
        self.processed_transaction_ids.contains(&id)
    }

    /// Whether the account has a worker.
    pub fn has_worker(&self, account: AccountId) -> (r: bool)
        ensures
            r == self@.workers.contains(account),
    {
        self.account_workers.contains(&account)
    }

    /// Where `cmd` goes. A transaction or a dispute goes to the worker of
    /// its account, which is created first if the account has none. A
    /// snapshot goes to all workers, after the header line. Nothing is
    /// remembered yet.
    ///
    /// A transaction id that comes a second time breaks the feed as a
    /// whole: such a command must not be handed in.
    pub fn handle(&self, cmd: &PaymentEngineCommand) -> (r: Routing)
        requires
            !self@.repeats(cmd@),
        ensures
            match cmd@.account_id() {
                Some(account) => r == self@.route(account),
                None => r matches Routing::ToAllWorkers(header, accounts) && header@
                    == header_text() && accounts@ == self@.joins,
            },
    {
        match cmd {
            PaymentEngineCommand::TransactionCommand(tx) => self.handle_transaction(tx),
            PaymentEngineCommand::DisputeCommand(d) => self.handle_dispute(d),
            PaymentEngineCommand::SendAccountsToCSV => self.handle_send_accounts_to_csv(),
        }
    }

    fn handle_send_accounts_to_csv(&self) -> (r: Routing)
        ensures
            r matches Routing::ToAllWorkers(header, accounts) && header@ == header_text()
                && accounts@ == self@.joins,
    {
        Routing::ToAllWorkers(snapshot_header(), self.worker_joins.clone())
    }

    fn handle_transaction(&self, cmd: &TransactionCommandData) -> (r: Routing)
        requires
            !self@.processed.contains(cmd@.tx.id),
        ensures
            r == self@.route(cmd@.tx.account_id),
    {
        self.route(cmd.tx().account_id())
    }

    fn handle_dispute(&self, cmd: &DisputeCommandData) -> (r: Routing)
        ensures
            r == self@.route(cmd@.dispute.account_id),
    {
        self.route(cmd.dispute().account_id())
    }

    fn route(&self, account: AccountId) -> (r: Routing)
        ensures
            r == self@.route(account),
    {
        if self.account_workers.contains(&account) {
            Routing::ToWorker(account)
        } else {
            Routing::ToNewWorker(account)
        }
    }

    /// Remembers that `cmd` reached the worker of its account: the account
    /// has a worker from now on, and the id of a transaction is kept.
    pub fn record_delivery(&mut self, cmd: &PaymentEngineCommand)
        ensures
            final(self)@ == old(self)@.after_delivery(cmd@),
            old(self)@.consistent() ==> final(self)@.consistent(),
    {
        proof {
            if old(self)@.consistent() {
                old(self)@.lemma_delivery_keeps_consistent(cmd@);
            }
        }
        match cmd {
            PaymentEngineCommand::TransactionCommand(tx) => {
                self.create_account_worker(tx.tx().account_id());
                self.processed_transaction_ids.insert(tx.tx().id());
            },
            PaymentEngineCommand::DisputeCommand(d) => {
                self.create_account_worker(d.dispute().account_id());
            },
            PaymentEngineCommand::SendAccountsToCSV => {},
        }
    }

    fn create_account_worker(&mut self, account: AccountId)
        ensures
            final(self)@ == old(self)@.with_worker(account),
    {
        if !self.account_workers.contains(&account) {
            self.account_workers.insert(account);
            self.worker_joins.push(account);
        }
    }

    /// Lets go of all workers. The accounts come back in the order in which
    /// their workers are to be waited for: the last created first.
    pub fn shutdown(&mut self) -> (joined: Vec<AccountId>)
        ensures
            joined@ == old(self)@.joins.reverse(),
            final(self)@ == (EngineView {
                workers: Set::<AccountId>::empty(),
                joins: Seq::<AccountId>::empty(),
                processed: old(self)@.processed,
            }),
    {
        self.account_workers = HashSet::new();
        let mut joined: Vec<AccountId> = Vec::new();
        while self.worker_joins.len() > 0
            invariant
                self.account_workers@ == Set::<AccountId>::empty(),
                self.processed_transaction_ids@ == old(self).processed_transaction_ids@,
                self.worker_joins@.len() + joined@.len() == old(self).worker_joins@.len(),
                self.worker_joins@ == old(self).worker_joins@.take(self.worker_joins@.len() as int),
                forall|i: int|
                    0 <= i < joined@.len() ==> joined@[i] == old(self).worker_joins@[old(
                        self,
                    ).worker_joins@.len() - 1 - i],
            decreases self.worker_joins.len(),
        {
            match self.worker_joins.pop() {
                Some(account) => {
                    joined.push(account);
                },
                None => {},
            }
        }
        assert(joined@ =~= old(self)@.joins.reverse());
        assert(self@.joins =~= Seq::<AccountId>::empty());
        joined
    }
}

} // verus!
