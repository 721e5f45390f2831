use payment_engine::account::{Account, Wallet};
use payment_engine::amount::Amount;
use payment_engine::errors::AccountOperationError::{
    AccountLocked, InsufficientFunds, NonPositiveAmount, OverflowInWallet,
};

fn dec(mantissa: i128, scale: u32) -> Amount {
    Amount::new(mantissa, scale).unwrap()
}

#[test]
fn account_can_deposit_funds() {
    let mut acc = Account::new(0);
    let _ = acc.deposit(dec(1773, 3));
    assert_eq!(acc.wallet().amount(), dec(1773, 3));
    let _ = acc.deposit(dec(1664, 3));
    assert_eq!(acc.wallet().amount(), dec(3437, 3));
}

#[test]
fn account_cannot_deposit_negative_funds() {
    let mut acc = Account::new(0);

    let expected_error = Err(NonPositiveAmount);
    let result = acc.deposit(dec(-1, 0));
    assert_eq!(result, expected_error);
}

#[test]
fn account_can_withdraw_funds() {
    let mut acc = Account::new_with_wallet(0, Wallet::new(dec(1664, 0), dec(0, 0)));
    let _ = acc.withdraw(dec(1773, 3));
    assert_eq!(acc.wallet().amount(), dec(1662227, 3));
    let _ = acc.withdraw(dec(1664, 3));
    assert_eq!(acc.wallet().amount(), dec(1660563, 3));
}

#[test]
fn account_cannot_withdraw_funds_with_empty_wallet() {
    let mut acc = Account::new(0);
    let expected_error = Err(InsufficientFunds);
    let result = acc.withdraw(dec(1773, 3));
    assert_eq!(result, expected_error);
}

#[test]
fn account_can_hold_funds() {
    let mut acc = Account::new_with_wallet(0, Wallet::new(dec(1664, 0), dec(0, 0)));
    let _ = acc.hold(dec(10, 0));
    assert_eq!(acc.wallet().held(), dec(10, 0));
}

#[test]
fn account_cannot_hold_funds_with_an_empty_wallet() {
    let mut acc = Account::new(0);
    let expected_error = Err(InsufficientFunds);
    let result = acc.withdraw(dec(1773, 3));
    assert_eq!(result, expected_error);
}

#[test]
fn account_can_unhold_funds() {
    let mut acc = Account::new_with_wallet(0, Wallet::new(dec(1664, 0), dec(10, 0)));
    let _ = acc.unhold(dec(10, 0));
    assert_eq!(acc.wallet().held(), dec(0, 0));
}

#[test]
fn new_account_is_empty_and_unlocked() {
    let acc = Account::new(7);
    assert_eq!(acc.get_id(), 7);
    assert!(!acc.locked());
    assert_eq!(acc.wallet().amount().mantissa(), 0);
    assert_eq!(acc.wallet().held().mantissa(), 0);
    assert_eq!(acc.wallet().available_funds(), Some(dec(0, 0)));
}

#[test]
fn deposit_of_zero_is_refused_and_changes_nothing() {
    let mut acc = Account::new_with_wallet(3, Wallet::new(dec(25, 1), dec(5, 1)));
    assert_eq!(acc.deposit(dec(0, 0)), Err(NonPositiveAmount));
    assert_eq!(acc.deposit(dec(0, 4)), Err(NonPositiveAmount));
    assert_eq!(acc.wallet().amount().mantissa(), 25);
    assert_eq!(acc.wallet().amount().scale(), 1);
    assert_eq!(acc.wallet().held(), dec(5, 1));
}

#[test]
fn deposit_that_overflows_is_refused_and_changes_nothing() {
    let max = payment_engine::amount::MAX_MANTISSA;
    let mut acc = Account::new_with_wallet(3, Wallet::new(dec(max, 0), dec(0, 0)));
    assert_eq!(acc.deposit(dec(1, 0)), Err(OverflowInWallet));
    assert_eq!(acc.wallet().amount().mantissa(), max);
    assert_eq!(acc.wallet().amount().scale(), 0);
}

#[test]
fn withdrawal_above_available_funds_changes_nothing() {
    let mut acc = Account::new_with_wallet(3, Wallet::new(dec(100, 1), dec(40, 1)));
    assert_eq!(acc.wallet().available_funds(), Some(dec(60, 1)));
    assert_eq!(acc.withdraw(dec(601, 2)), Err(InsufficientFunds));
    assert_eq!(acc.wallet().amount().mantissa(), 100);
    assert_eq!(acc.wallet().amount().scale(), 1);
    assert_eq!(acc.withdraw(dec(6, 0)), Ok(()));
    assert_eq!(acc.wallet().amount(), dec(4, 0));
    assert_eq!(acc.wallet().available_funds(), Some(dec(0, 0)));
}

#[test]
fn withdrawal_of_a_negative_amount_is_refused() {
    let mut acc = Account::new_with_wallet(3, Wallet::new(dec(100, 1), dec(0, 0)));
    assert_eq!(acc.withdraw(dec(-5, 0)), Err(NonPositiveAmount));
    assert_eq!(acc.withdraw(dec(0, 0)), Err(NonPositiveAmount));
    assert_eq!(acc.wallet().amount(), dec(10, 0));
}

#[test]
fn hold_cannot_exceed_available_funds() {
    let mut acc = Account::new_with_wallet(3, Wallet::new(dec(10, 0), dec(4, 0)));
    assert_eq!(acc.hold(dec(7, 0)), Err(InsufficientFunds));
    assert_eq!(acc.wallet().held(), dec(4, 0));
    assert_eq!(acc.hold(dec(0, 0)), Err(NonPositiveAmount));
    assert_eq!(acc.hold(dec(6, 0)), Ok(()));
    assert_eq!(acc.wallet().held(), dec(10, 0));
    assert_eq!(acc.wallet().amount(), dec(10, 0));
    assert_eq!(acc.wallet().available_funds(), Some(dec(0, 0)));
}

#[test]
fn unhold_cannot_exceed_what_is_held() {
    let mut acc = Account::new_with_wallet(3, Wallet::new(dec(10, 0), dec(4, 0)));
    assert_eq!(acc.unhold(dec(401, 2)), Err(InsufficientFunds));
    assert_eq!(acc.unhold(dec(-1, 0)), Err(NonPositiveAmount));
    assert_eq!(acc.wallet().held(), dec(4, 0));
    assert_eq!(acc.unhold(dec(15, 1)), Ok(()));
    assert_eq!(acc.wallet().held(), dec(25, 1));
    assert_eq!(acc.wallet().amount(), dec(10, 0));
}

#[test]
fn locked_account_refuses_every_wallet_operation() {
    let mut acc = Account::new_with_wallet(9, Wallet::new(dec(10, 0), dec(4, 0)));
    acc.lock();
    assert!(acc.locked());
    assert_eq!(acc.deposit(dec(1, 0)), Err(AccountLocked(9)));
    assert_eq!(acc.withdraw(dec(1, 0)), Err(AccountLocked(9)));
    assert_eq!(acc.hold(dec(1, 0)), Err(AccountLocked(9)));
    assert_eq!(acc.unhold(dec(1, 0)), Err(AccountLocked(9)));
    assert_eq!(acc.deposit(dec(-1, 0)), Err(AccountLocked(9)));
    assert_eq!(acc.wallet().amount(), dec(10, 0));
    assert_eq!(acc.wallet().held(), dec(4, 0));
}

#[test]
fn available_funds_follow_deposits_and_withdrawals() {
    let mut acc = Account::new(1);
    // Each step: deposit or withdrawal, and the amount in thousandths.
    let steps: Vec<(bool, i128)> = vec![
        (true, 5000),
        (true, 2000),
        (false, 1500),
        (false, 100000),
        (true, -3000),
        (true, 125),
        (false, 5625),
        (false, 1),
    ];
    let accepted = vec![true, true, true, false, false, true, true, false];
    let mut net: i128 = 0;
    for (i, (deposit, thousandths)) in steps.into_iter().enumerate() {
        let amount = dec(thousandths, 3);
        let applied = if deposit { acc.deposit(amount) } else { acc.withdraw(amount) };
        assert_eq!(applied.is_ok(), accepted[i]);
        if applied.is_ok() {
            net += if deposit { thousandths } else { -thousandths };
        }
        assert_eq!(acc.wallet().available_funds(), Some(dec(net, 3)));
        assert_eq!(acc.wallet().amount(), dec(net, 3));
        assert_eq!(acc.wallet().held(), dec(0, 0));
    }
    assert_eq!(net, 0);
}

#[test]
fn available_funds_are_the_total_less_what_is_held() {
    let mut acc = Account::new(1);
    assert_eq!(acc.deposit(dec(105, 1)), Ok(()));
    assert_eq!(acc.hold(dec(50, 1)), Ok(()));
    assert_eq!(acc.wallet().available_funds(), Some(dec(55, 1)));
    assert_eq!(acc.deposit(dec(2, 0)), Ok(()));
    assert_eq!(acc.wallet().available_funds(), Some(dec(75, 1)));
    assert_eq!(acc.withdraw(dec(8, 0)), Err(InsufficientFunds));
    assert_eq!(acc.withdraw(dec(75, 1)), Ok(()));
    assert_eq!(acc.wallet().available_funds(), Some(dec(0, 0)));
    assert_eq!(acc.wallet().amount(), dec(5, 0));
    assert_eq!(acc.wallet().held(), dec(5, 0));
}

#[test]
fn record_has_id_available_held_total_and_lock() {
    let mut acc = Account::new_with_wallet(12, Wallet::new(dec(55, 1), dec(50, 1)));
    assert_eq!(acc.to_record(), Some(String::from("12,0.5,5.0,5.5,false\n")));
    acc.lock();
    assert_eq!(acc.to_record(), Some(String::from("12,0.5,5.0,5.5,true\n")));
    let empty = Account::new(0);
    assert_eq!(empty.to_record(), Some(String::from("0,0,0,0,false\n")));
    let wide = Account::new_with_wallet(65535, Wallet::new(dec(12345, 4), dec(0, 0)));
    assert_eq!(wide.to_record(), Some(String::from("65535,1.2345,0,1.2345,false\n")));
}

#[test]
fn record_is_missing_where_available_funds_overflow() {
    let max = payment_engine::amount::MAX_MANTISSA;
    let mut acc = Account::new_with_wallet(1, Wallet::new(dec(max, 0), dec(-max, 0)));
    assert_eq!(acc.wallet().available_funds(), None);
    assert_eq!(acc.to_record(), None);
    assert_eq!(acc.withdraw(dec(1, 0)), Err(OverflowInWallet));
    assert_eq!(acc.hold(dec(1, 0)), Err(OverflowInWallet));
    assert_eq!(acc.wallet().amount(), dec(max, 0));
    assert_eq!(acc.wallet().held(), dec(-max, 0));
}
