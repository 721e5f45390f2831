use payment_engine::account::{Account, Wallet};
use payment_engine::amount::Amount;
use payment_engine::errors::AccountOperationError::{
    AccountLocked, DisputeIsNotDeposit, DuplicatedTransaction, InsufficientFunds,
    NonPositiveAmount, OverflowInWallet, TransactionDisputeNotFound, TransactionNotFound,
    TransactionStateMismatch, WrongAccountId,
};
use payment_engine::errors::PaymentEngineError;
use payment_engine::errors::PaymentEngineError::AccountProcessError;
use payment_engine::tasks::command::{
    DisputeCommandAction, DisputeCommandData, PaymentEngineCommand, TransactionCommandData,
};
use payment_engine::tasks::worker::AccountWorker;
use payment_engine::transaction::{
    Dispute, DisputeResolution, DisputeStatus, Transaction, TransactionKind, TransactionStatus,
};

fn dec(mantissa: i128, scale: u32) -> Amount {
    Amount::new(mantissa, scale).unwrap()
}

fn deposit(id: u32, account: u16, amount: Amount) -> Transaction {
    Transaction::new(TransactionKind::Deposit, id, account, amount)
}

fn withdrawal(id: u32, account: u16, amount: Amount) -> Transaction {
    Transaction::new(TransactionKind::Withdrawal, id, account, amount)
}

fn worker_with_deposit() -> AccountWorker {
    let mut worker = AccountWorker::new(Account::new(1));
    assert_eq!(worker.handle_deposit(&deposit(1, 1, dec(50, 1))), Ok(()));
    worker
}

fn balances(worker: &AccountWorker) -> (Amount, Amount) {
    (worker.account().wallet().amount(), worker.account().wallet().held())
}

#[test]
fn accepted_deposit_is_recorded_as_processed() {
    let worker = worker_with_deposit();
    assert_eq!(worker.get_id(), 1);
    assert_eq!(balances(&worker), (dec(50, 1), dec(0, 0)));
    let stored = worker.transaction(1).unwrap();
    assert_eq!(stored.status(), TransactionStatus::Processed);
    assert_eq!(stored.kind(), TransactionKind::Deposit);
    assert_eq!(stored.id(), 1);
    assert_eq!(stored.account_id(), 1);
    assert_eq!(stored.amount(), dec(50, 1));
    assert_eq!(worker.transaction(2), None);
    assert_eq!(worker.dispute(1), None);
}

#[test]
fn accepted_withdrawal_is_recorded_as_processed() {
    let mut worker = worker_with_deposit();
    assert_eq!(worker.handle_withdrawal(&withdrawal(2, 1, dec(15, 1))), Ok(()));
    assert_eq!(balances(&worker), (dec(35, 1), dec(0, 0)));
    let stored = worker.transaction(2).unwrap();
    assert_eq!(stored.status(), TransactionStatus::Processed);
    assert_eq!(stored.kind(), TransactionKind::Withdrawal);
}

#[test]
fn refused_deposit_is_not_recorded() {
    let mut worker = AccountWorker::new(Account::new(1));
    assert_eq!(
        worker.handle_deposit(&deposit(1, 1, dec(0, 0))),
        Err(AccountProcessError(NonPositiveAmount))
    );
    assert_eq!(worker.transaction(1), None);
    assert_eq!(worker.handle_deposit(&deposit(1, 1, dec(2, 0))), Ok(()));
    assert_eq!(balances(&worker), (dec(2, 0), dec(0, 0)));
}

#[test]
fn refused_withdrawal_is_not_recorded() {
    let mut worker = worker_with_deposit();
    assert_eq!(
        worker.handle_withdrawal(&withdrawal(2, 1, dec(51, 1))),
        Err(AccountProcessError(InsufficientFunds))
    );
    assert_eq!(worker.transaction(2), None);
    assert_eq!(balances(&worker), (dec(50, 1), dec(0, 0)));
    assert_eq!(worker.handle_withdrawal(&withdrawal(2, 1, dec(50, 1))), Ok(()));
    assert_eq!(balances(&worker), (dec(0, 0), dec(0, 0)));
}

#[test]
fn second_submission_of_an_id_is_a_duplicate_and_changes_nothing() {
    let mut worker = worker_with_deposit();
    assert_eq!(
        worker.handle_deposit(&deposit(1, 1, dec(50, 1))),
        Err(AccountProcessError(DuplicatedTransaction(1)))
    );
    assert_eq!(
        worker.handle_deposit(&deposit(1, 1, dec(7, 0))),
        Err(AccountProcessError(DuplicatedTransaction(1)))
    );
    assert_eq!(
        worker.handle_withdrawal(&withdrawal(1, 1, dec(1, 0))),
        Err(AccountProcessError(DuplicatedTransaction(1)))
    );
    assert_eq!(balances(&worker), (dec(50, 1), dec(0, 0)));
    assert_eq!(worker.transaction(1).unwrap().amount(), dec(50, 1));
    assert_eq!(worker.transaction(1).unwrap().kind(), TransactionKind::Deposit);
}

#[test]
fn open_dispute_holds_the_disputed_amount() {
    let mut worker = worker_with_deposit();
    assert_eq!(worker.handle_deposit(&deposit(2, 1, dec(20, 1))), Ok(()));
    assert_eq!(worker.handle_new_dispute(&Dispute::new(1, 1)), Ok(()));
    assert_eq!(balances(&worker), (dec(70, 1), dec(50, 1)));
    assert_eq!(worker.account().wallet().available_funds(), Some(dec(20, 1)));
    assert_eq!(worker.transaction(1).unwrap().status(), TransactionStatus::DisputeInProgress);
    assert_eq!(worker.transaction(2).unwrap().status(), TransactionStatus::Processed);
    let stored = worker.dispute(1).unwrap();
    assert_eq!(stored.status(), DisputeStatus::InProgress);
    assert_eq!(stored.tx_id(), 1);
    assert_eq!(stored.account_id(), 1);
}

#[test]
fn dispute_on_unknown_transaction_is_refused() {
    let mut worker = worker_with_deposit();
    assert_eq!(
        worker.handle_new_dispute(&Dispute::new(1, 9)),
        Err(AccountProcessError(TransactionNotFound(9)))
    );
    assert_eq!(balances(&worker), (dec(50, 1), dec(0, 0)));
    assert_eq!(worker.dispute(9), None);
}

#[test]
fn dispute_on_withdrawal_is_refused() {
    let mut worker = worker_with_deposit();
    assert_eq!(worker.handle_withdrawal(&withdrawal(2, 1, dec(10, 1))), Ok(()));
    assert_eq!(
        worker.handle_new_dispute(&Dispute::new(1, 2)),
        Err(AccountProcessError(DisputeIsNotDeposit(TransactionKind::Withdrawal)))
    );
    assert_eq!(balances(&worker), (dec(40, 1), dec(0, 0)));
    assert_eq!(worker.transaction(2).unwrap().status(), TransactionStatus::Processed);
    assert_eq!(worker.dispute(2), None);
}

#[test]
fn second_dispute_on_a_disputed_transaction_is_refused() {
    let mut worker = worker_with_deposit();
    assert_eq!(worker.handle_new_dispute(&Dispute::new(1, 1)), Ok(()));
    assert_eq!(
        worker.handle_new_dispute(&Dispute::new(1, 1)),
        Err(AccountProcessError(TransactionStateMismatch(1, "has another dispute in progress")))
    );
    assert_eq!(balances(&worker), (dec(50, 1), dec(50, 1)));
    assert_eq!(worker.transaction(1).unwrap().status(), TransactionStatus::DisputeInProgress);
    assert_eq!(worker.dispute(1).unwrap().status(), DisputeStatus::InProgress);
}

#[test]
fn dispute_on_a_charged_back_transaction_is_refused() {
    let mut worker = worker_with_deposit();
    assert_eq!(worker.handle_new_dispute(&Dispute::new(1, 1)), Ok(()));
    assert_eq!(
        worker.handle_close_dispute(&Dispute::new(1, 1), DisputeResolution::ChargedBack),
        Ok(())
    );
    assert_eq!(
        worker.handle_new_dispute(&Dispute::new(1, 1)),
        Err(AccountProcessError(TransactionStateMismatch(1, "has been charged back")))
    );
    assert_eq!(balances(&worker), (dec(0, 0), dec(0, 0)));
    assert_eq!(worker.transaction(1).unwrap().status(), TransactionStatus::ChargedBack);
    assert_eq!(
        worker.dispute(1).unwrap().status(),
        DisputeStatus::Resolved(DisputeResolution::ChargedBack)
    );
}

#[test]
fn dispute_that_cannot_be_held_is_refused() {
    let mut worker = worker_with_deposit();
    assert_eq!(worker.handle_withdrawal(&withdrawal(2, 1, dec(10, 1))), Ok(()));
    assert_eq!(
        worker.handle_new_dispute(&Dispute::new(1, 1)),
        Err(AccountProcessError(InsufficientFunds))
    );
    assert_eq!(balances(&worker), (dec(40, 1), dec(0, 0)));
    assert_eq!(worker.transaction(1).unwrap().status(), TransactionStatus::Processed);
    assert_eq!(worker.dispute(1), None);
}

#[test]
fn cancel_after_open_restores_held_and_processed() {
    let mut worker = AccountWorker::new(Account::new_with_wallet(
        1,
        Wallet::new(dec(30, 1), dec(10, 1)),
    ));
    assert_eq!(worker.handle_deposit(&deposit(1, 1, dec(525, 2))), Ok(()));
    assert_eq!(worker.handle_new_dispute(&Dispute::new(1, 1)), Ok(()));
    assert_eq!(balances(&worker), (dec(825, 2), dec(625, 2)));
    assert_eq!(
        worker.handle_close_dispute(&Dispute::new(1, 1), DisputeResolution::Cancelled),
        Ok(())
    );
    assert_eq!(balances(&worker), (dec(825, 2), dec(10, 1)));
    assert!(!worker.account().locked());
    assert_eq!(worker.transaction(1).unwrap().status(), TransactionStatus::Processed);
    assert_eq!(
        worker.dispute(1).unwrap().status(),
        DisputeStatus::Resolved(DisputeResolution::Cancelled)
    );
}

#[test]
fn cancelled_dispute_can_be_opened_again() {
    let mut worker = worker_with_deposit();
    assert_eq!(worker.handle_new_dispute(&Dispute::new(1, 1)), Ok(()));
    assert_eq!(
        worker.handle_close_dispute(&Dispute::new(1, 1), DisputeResolution::Cancelled),
        Ok(())
    );
    assert_eq!(worker.handle_new_dispute(&Dispute::new(1, 1)), Ok(()));
    assert_eq!(balances(&worker), (dec(50, 1), dec(50, 1)));
    assert_eq!(worker.dispute(1).unwrap().status(), DisputeStatus::InProgress);
}

#[test]
fn chargeback_after_open_removes_the_funds_and_locks() {
    let mut worker = worker_with_deposit();
    assert_eq!(worker.handle_deposit(&deposit(2, 1, dec(20, 1))), Ok(()));
    assert_eq!(worker.handle_new_dispute(&Dispute::new(1, 1)), Ok(()));
    assert_eq!(
        worker.handle_close_dispute(&Dispute::new(1, 1), DisputeResolution::ChargedBack),
        Ok(())
    );
    assert_eq!(balances(&worker), (dec(20, 1), dec(0, 0)));
    assert!(worker.account().locked());
    assert_eq!(worker.transaction(1).unwrap().status(), TransactionStatus::ChargedBack);
    assert_eq!(
        worker.dispute(1).unwrap().status(),
        DisputeStatus::Resolved(DisputeResolution::ChargedBack)
    );
    assert_eq!(
        worker.handle_deposit(&deposit(3, 1, dec(1, 0))),
        Err(AccountProcessError(AccountLocked(1)))
    );
    assert_eq!(
        worker.handle_withdrawal(&withdrawal(4, 1, dec(1, 0))),
        Err(AccountProcessError(AccountLocked(1)))
    );
    assert_eq!(
        worker.handle_new_dispute(&Dispute::new(1, 2)),
        Err(AccountProcessError(AccountLocked(1)))
    );
    assert_eq!(balances(&worker), (dec(20, 1), dec(0, 0)));
    assert_eq!(worker.transaction(3), None);
    assert_eq!(worker.transaction(2).unwrap().status(), TransactionStatus::Processed);
}

#[test]
fn close_of_an_unknown_transaction_or_dispute_is_refused() {
    let mut worker = worker_with_deposit();
    assert_eq!(
        worker.handle_close_dispute(&Dispute::new(1, 9), DisputeResolution::Cancelled),
        Err(AccountProcessError(TransactionNotFound(9)))
    );
    assert_eq!(
        worker.handle_close_dispute(&Dispute::new(1, 1), DisputeResolution::ChargedBack),
        Err(AccountProcessError(TransactionDisputeNotFound(1)))
    );
    assert_eq!(balances(&worker), (dec(50, 1), dec(0, 0)));
    assert!(!worker.account().locked());
}

#[test]
fn close_of_a_resolved_dispute_is_refused() {
    let mut worker = worker_with_deposit();
    assert_eq!(worker.handle_new_dispute(&Dispute::new(1, 1)), Ok(()));
    assert_eq!(
        worker.handle_close_dispute(&Dispute::new(1, 1), DisputeResolution::Cancelled),
        Ok(())
    );
    assert_eq!(
        worker.handle_close_dispute(&Dispute::new(1, 1), DisputeResolution::Cancelled),
        Err(AccountProcessError(TransactionStateMismatch(1, "has already been resolved")))
    );
    assert_eq!(
        worker.handle_close_dispute(&Dispute::new(1, 1), DisputeResolution::ChargedBack),
        Err(AccountProcessError(TransactionStateMismatch(1, "has already been resolved")))
    );
    assert_eq!(balances(&worker), (dec(50, 1), dec(0, 0)));
    assert!(!worker.account().locked());
    assert_eq!(worker.transaction(1).unwrap().status(), TransactionStatus::Processed);
}

#[test]
fn chargeback_that_the_wallet_refuses_keeps_the_release() {
    let mut worker = AccountWorker::new(Account::new_with_wallet(
        1,
        Wallet::new(dec(0, 0), dec(-10, 0)),
    ));
    assert_eq!(worker.handle_deposit(&deposit(1, 1, dec(10, 0))), Ok(()));
    assert_eq!(worker.handle_new_dispute(&Dispute::new(1, 1)), Ok(()));
    assert_eq!(balances(&worker), (dec(10, 0), dec(0, 0)));
    assert_eq!(
        worker.handle_close_dispute(&Dispute::new(1, 1), DisputeResolution::ChargedBack),
        Err(AccountProcessError(InsufficientFunds))
    );
    assert_eq!(balances(&worker), (dec(10, 0), dec(0, 0)));
    assert_eq!(worker.transaction(1).unwrap().status(), TransactionStatus::DisputeInProgress);
}

#[test]
fn handle_applies_transactions_by_their_kind() {
    let mut worker = AccountWorker::new(Account::new(1));
    let cmd = PaymentEngineCommand::TransactionCommand(TransactionCommandData::from(deposit(
        1,
        1,
        dec(50, 1),
    )));
    assert_eq!(worker.handle(&cmd), Ok(None));
    let cmd = PaymentEngineCommand::TransactionCommand(TransactionCommandData::from(withdrawal(
        2,
        1,
        dec(15, 1),
    )));
    assert_eq!(worker.handle(&cmd), Ok(None));
    assert_eq!(balances(&worker), (dec(35, 1), dec(0, 0)));
    assert_eq!(worker.handle(&cmd), Err(AccountProcessError(DuplicatedTransaction(2))));
    assert_eq!(balances(&worker), (dec(35, 1), dec(0, 0)));
}

#[test]
fn handle_runs_the_dispute_lifecycle() {
    let mut worker = worker_with_deposit();
    let open = PaymentEngineCommand::DisputeCommand(DisputeCommandData::new(
        DisputeCommandAction::OpenDispute,
        Dispute::new(1, 1),
    ));
    let cancel = PaymentEngineCommand::DisputeCommand(DisputeCommandData::new(
        DisputeCommandAction::CancelDispute,
        Dispute::new(1, 1),
    ));
    let chargeback = PaymentEngineCommand::DisputeCommand(DisputeCommandData::new(
        DisputeCommandAction::ChargebackDispute,
        Dispute::new(1, 1),
    ));
    assert_eq!(worker.handle(&open), Ok(None));
    assert_eq!(balances(&worker), (dec(50, 1), dec(50, 1)));
    assert_eq!(worker.handle(&cancel), Ok(None));
    assert_eq!(balances(&worker), (dec(50, 1), dec(0, 0)));
    assert_eq!(worker.handle(&open), Ok(None));
    assert_eq!(worker.handle(&chargeback), Ok(None));
    assert_eq!(balances(&worker), (dec(0, 0), dec(0, 0)));
    assert!(worker.account().locked());
    assert_eq!(
        worker.handle(&cancel),
        Err(AccountProcessError(TransactionStateMismatch(1, "has already been resolved")))
    );
}

#[test]
fn handle_refuses_commands_for_another_account() {
    let mut worker = worker_with_deposit();
    let cmd = PaymentEngineCommand::TransactionCommand(TransactionCommandData::from(deposit(
        2,
        7,
        dec(50, 1),
    )));
    assert_eq!(worker.handle(&cmd), Err(AccountProcessError(WrongAccountId(7, 1))));
    let cmd = PaymentEngineCommand::DisputeCommand(DisputeCommandData::new(
        DisputeCommandAction::OpenDispute,
        Dispute::new(8, 1),
    ));
    assert_eq!(worker.handle(&cmd), Err(AccountProcessError(WrongAccountId(8, 1))));
    assert_eq!(balances(&worker), (dec(50, 1), dec(0, 0)));
    assert_eq!(worker.transaction(2), None);
    assert_eq!(worker.dispute(1), None);
}

#[test]
fn handle_answers_a_snapshot_with_the_account_line() {
    let mut worker = worker_with_deposit();
    assert_eq!(worker.handle_deposit(&deposit(2, 1, dec(550, 2))), Ok(()));
    assert_eq!(worker.handle_new_dispute(&Dispute::new(1, 1)), Ok(()));
    assert_eq!(
        worker.handle(&PaymentEngineCommand::SendAccountsToCSV),
        Ok(Some(String::from("1,5.50,5.0,10.50,false\n")))
    );
    assert_eq!(balances(&worker), (dec(1050, 2), dec(50, 1)));
}

#[test]
fn handle_reports_a_snapshot_that_cannot_be_written() {
    let max = payment_engine::amount::MAX_MANTISSA;
    let mut worker = AccountWorker::new(Account::new_with_wallet(
        1,
        Wallet::new(dec(max, 0), dec(-max, 0)),
    ));
    let answer: Result<Option<String>, PaymentEngineError> =
        worker.handle(&PaymentEngineCommand::SendAccountsToCSV);
    assert_eq!(answer, Err(AccountProcessError(OverflowInWallet)));
}

#[test]
fn locked_account_keeps_what_is_held_for_open_disputes() {
    let mut worker = worker_with_deposit();
    assert_eq!(worker.handle_deposit(&deposit(2, 1, dec(20, 1))), Ok(()));
    assert_eq!(worker.handle_new_dispute(&Dispute::new(1, 1)), Ok(()));
    assert_eq!(worker.handle_new_dispute(&Dispute::new(1, 2)), Ok(()));
    assert_eq!(balances(&worker), (dec(70, 1), dec(70, 1)));
    assert_eq!(
        worker.handle_close_dispute(&Dispute::new(1, 1), DisputeResolution::ChargedBack),
        Ok(())
    );
    assert_eq!(balances(&worker), (dec(20, 1), dec(20, 1)));
    assert!(worker.account().locked());
    assert_eq!(
        worker.handle_close_dispute(&Dispute::new(1, 2), DisputeResolution::Cancelled),
        Err(AccountProcessError(AccountLocked(1)))
    );
    assert_eq!(
        worker.handle_close_dispute(&Dispute::new(1, 2), DisputeResolution::ChargedBack),
        Err(AccountProcessError(AccountLocked(1)))
    );
    assert_eq!(balances(&worker), (dec(20, 1), dec(20, 1)));
    assert_eq!(worker.transaction(2).unwrap().status(), TransactionStatus::DisputeInProgress);
    assert_eq!(worker.dispute(2).unwrap().status(), DisputeStatus::InProgress);
}

#[test]
fn account_errors_become_engine_errors() {
    assert_eq!(
        PaymentEngineError::from(NonPositiveAmount),
        AccountProcessError(NonPositiveAmount)
    );
    assert_eq!(
        PaymentEngineError::from(TransactionStateMismatch(4, "has been charged back")),
        AccountProcessError(TransactionStateMismatch(4, "has been charged back"))
    );
}

/// The sum of the amounts of the transactions under dispute, in hundredths.
fn disputed_hundredths(worker: &AccountWorker, ids: u32) -> i128 {
    let mut sum = 0;
    for id in 1..=ids {
        if let Some(tx) = worker.transaction(id) {
            if tx.status() == TransactionStatus::DisputeInProgress {
                assert_eq!(tx.amount().scale(), 2);
                sum += tx.amount().mantissa();
            }
        }
    }
    sum
}

#[test]
fn held_is_the_sum_of_the_amounts_under_dispute() {
    let mut worker = AccountWorker::new(Account::new(1));
    let open = |id| {
        PaymentEngineCommand::DisputeCommand(DisputeCommandData::new(
            DisputeCommandAction::OpenDispute,
            Dispute::new(1, id),
        ))
    };
    let cancel = |id| {
        PaymentEngineCommand::DisputeCommand(DisputeCommandData::new(
            DisputeCommandAction::CancelDispute,
            Dispute::new(1, id),
        ))
    };
    let chargeback = |id| {
        PaymentEngineCommand::DisputeCommand(DisputeCommandData::new(
            DisputeCommandAction::ChargebackDispute,
            Dispute::new(1, id),
        ))
    };
    let apply =
        |tx| PaymentEngineCommand::TransactionCommand(TransactionCommandData::from(tx));
    let feed = vec![
        (apply(deposit(1, 1, dec(500, 2))), 0),
        (apply(deposit(2, 1, dec(250, 2))), 0),
        (open(1), 500),
        (apply(withdrawal(3, 1, dec(300, 2))), 500),
        (apply(withdrawal(4, 1, dec(100, 2))), 500),
        (open(2), 500),
        (open(3), 500),
        (apply(deposit(5, 1, dec(125, 2))), 500),
        (open(5), 625),
        (open(1), 625),
        (cancel(1), 125),
        (cancel(1), 125),
        (open(2), 375),
        (open(1), 375),
        (cancel(9), 375),
        (chargeback(2), 125),
        (cancel(5), 125),
        (apply(deposit(6, 1, dec(100, 2))), 125),
        (PaymentEngineCommand::SendAccountsToCSV, 125),
    ];
    for (command, held) in feed {
        let _ = worker.handle(&command);
        assert_eq!(disputed_hundredths(&worker, 9), held);
        assert_eq!(worker.account().wallet().held(), dec(held, 2));
    }
    assert!(worker.account().locked());
    assert_eq!(worker.account().wallet().amount(), dec(525, 2));
}
