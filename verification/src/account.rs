//! A customer's account and the money in it.

use crate::amount::{decimal_text, view_of, Amount, AmountView};
use crate::csv::{line_text, snapshot_line};
use crate::errors::AccountOperationError;
use vstd::prelude::*;

verus! {

pub type AccountId = u16;

/// The mathematical content of a [`Wallet`].
pub struct WalletView {
    pub amount: AmountView,
    pub held: AmountView,
}

impl WalletView {
    /// What is free to use: the amount less what is held. `None` where the
    /// difference does not fit in a decimal amount.
    pub open spec fn available_funds(self) -> Option<AmountView> {
        self.amount.difference(self.held)
    }
}

/// The money of an account: all of it, and the part of it that is held
/// back while disputes are open.
#[derive(Debug)]
pub struct Wallet {
    amount: Amount,
    held: Amount,
}

impl View for Wallet {
    type V = WalletView;

    closed spec fn view(&self) -> WalletView {
        WalletView { amount: self.amount@, held: self.held@ }
    }
}

impl Default for Wallet {
    fn default() -> (r: Self)
        ensures
            r@ == (WalletView {
                amount: AmountView { mantissa: 0, scale: 0 },
                held: AmountView { mantissa: 0, scale: 0 },
            }),
    {
        Wallet { amount: Amount::zero(), held: Amount::zero() }
    }
}

impl Wallet {
    /// A wallet with the given total, of which `held` is held back.
    pub fn new(amount: Amount, held: Amount) -> (r: Self)
        ensures
            r@ == (WalletView { amount: amount@, held: held@ }),
    {
        Wallet { amount, held }
    }

    /// All the money in the wallet, held or not.
    pub fn amount(&self) -> (r: Amount)
        ensures
            r@ == self@.amount,
    {
        self.amount
    }

    /// The part that is held back.
    pub fn held(&self) -> (r: Amount)
        ensures
            r@ == self@.held,
    {
        self.held
    }

    /// What is free to use: the amount less what is held. `None` where the
    /// difference does not fit in a decimal amount.
    pub fn available_funds(&self) -> (r: Option<Amount>)
        ensures
            view_of(r) == self@.available_funds(),
    {
        proof {
            use_type_invariant(&self.amount);
            use_type_invariant(&self.held);
        }
        self.amount.checked_sub(&self.held)
    }
}

/// The mathematical content of an [`Account`].
pub struct AccountView {
    pub id: AccountId,
    pub wallet: WalletView,
    pub locked: bool,
}

impl AccountView {
    /// The account with another total.
    pub open spec fn with_amount(self, amount: AmountView) -> AccountView {
        AccountView { wallet: WalletView { amount, ..self.wallet }, ..self }
    }

    /// The account with another held part.
    pub open spec fn with_held(self, held: AmountView) -> AccountView {
        AccountView { wallet: WalletView { held, ..self.wallet }, ..self }
    }

    /// What a deposit of `amount` does: the account after it, or why it is
    /// refused.
    pub open spec fn deposit(self, amount: AmountView) -> Result<AccountView, AccountOperationError> {
        if self.locked {
            Err(AccountOperationError::AccountLocked(self.id))
        } else if amount.units() <= 0 {
            Err(AccountOperationError::NonPositiveAmount)
        } else {
            match self.wallet.amount.sum(amount) {
                Some(total) => Ok(self.with_amount(total)),
                None => Err(AccountOperationError::OverflowInWallet),
            }
        }
    }

    /// What a withdrawal of `amount` does: the account after it, or why it
    /// is refused.
    pub open spec fn withdraw(self, amount: AmountView) -> Result<
        AccountView,
        AccountOperationError,
    > {
        if self.locked {
            Err(AccountOperationError::AccountLocked(self.id))
        } else if amount.units() <= 0 {
            Err(AccountOperationError::NonPositiveAmount)
        } else {
            match self.wallet.available_funds() {
                None => Err(AccountOperationError::OverflowInWallet),
                Some(available) => if amount.units() > available.units() {
                    Err(AccountOperationError::InsufficientFunds)
                } else {
                    match self.wallet.amount.difference(amount) {
                        Some(rest) => Ok(self.with_amount(rest)),
                        None => Err(AccountOperationError::OverflowInWallet),
                    }
                },
            }
        }
    }

    /// What holding `amount` back does: the account after it, or why it is
    /// refused.
    pub open spec fn hold(self, amount: AmountView) -> Result<AccountView, AccountOperationError> {
        if self.locked {
            Err(AccountOperationError::AccountLocked(self.id))
        } else if amount.units() <= 0 {
            Err(AccountOperationError::NonPositiveAmount)
        } else {
            match self.wallet.available_funds() {
                None => Err(AccountOperationError::OverflowInWallet),
                Some(available) => if amount.units() > available.units() {
                    Err(AccountOperationError::InsufficientFunds)
                } else {
                    match self.wallet.held.sum(amount) {
                        Some(held) => Ok(self.with_held(held)),
                        None => Err(AccountOperationError::OverflowInWallet),
                    }
                },
            }
        }
    }

    /// What releasing `amount` from what is held does: the account after it,
    /// or why it is refused.
    pub open spec fn unhold(self, amount: AmountView) -> Result<AccountView, AccountOperationError> {
        if self.locked {
            Err(AccountOperationError::AccountLocked(self.id))
        } else if amount.units() <= 0 {
            Err(AccountOperationError::NonPositiveAmount)
        } else if amount.units() > self.wallet.held.units() {
            Err(AccountOperationError::InsufficientFunds)
        } else {
            match self.wallet.held.difference(amount) {
                Some(held) => Ok(self.with_held(held)),
                None => Err(AccountOperationError::OverflowInWallet),
            }
        }
    }

    /// The account as one line of a snapshot: id, available, held, total,
    /// locked. `None` where the available funds do not fit in a decimal
    /// amount.
    pub open spec fn record(self) -> Option<Seq<char>> {
        match self.wallet.available_funds() {
            Some(available) => Some(
                line_text(
                    self.id,
                    decimal_text(available),
                    decimal_text(self.wallet.held),
                    decimal_text(self.wallet.amount),
                    self.locked,
                ),
            ),
            None => None,
        }
    }
}

/// A deposit or a withdrawal that is asked of an account.
pub enum WalletOp {
    Deposit(AmountView),
    Withdraw(AmountView),
}

impl AccountView {
    /// What `op` does: the account after it, or why it is refused.
    pub open spec fn apply(self, op: WalletOp) -> Result<AccountView, AccountOperationError> {
        match op {
            WalletOp::Deposit(amount) => self.deposit(amount),
            WalletOp::Withdraw(amount) => self.withdraw(amount),
        }
    }

    /// The account after `op`, which leaves it as it is when it is refused.
    pub open spec fn after(self, op: WalletOp) -> AccountView {
        match self.apply(op) {
            Ok(account) => account,
            Err(_) => self,
        }
    }

    /// The account after all of `ops`, in their order.
    pub open spec fn after_all(self, ops: Seq<WalletOp>) -> AccountView
        decreases ops.len(),
    {
        if ops.len() == 0 {
            self
        } else {
            self.after_all(ops.drop_last()).after(ops.last())
        }
    }

    /// What `op` adds to the total, in units: its amount for a deposit that
    /// is accepted, less its amount for a withdrawal that is accepted, and
    /// nothing when it is refused.
    pub open spec fn applied(self, op: WalletOp) -> int {
        match op {
            WalletOp::Deposit(amount) => if self.deposit(amount) is Ok {
                amount.units()
            } else {
                0
            },
            WalletOp::Withdraw(amount) => if self.withdraw(amount) is Ok {
                -amount.units()
            } else {
                0
            },
        }
    }

    /// The deposits less the withdrawals among `ops` that are accepted, in
    /// units.
    pub open spec fn net_applied(self, ops: Seq<WalletOp>) -> int
        decreases ops.len(),
    {
        if ops.len() == 0 {
            0
        } else {
            self.net_applied(ops.drop_last()) + self.after_all(ops.drop_last()).applied(
                ops.last(),
            )
        }
    }

    /// `op` is refused, or its arithmetic loses nothing.
    pub open spec fn exact(self, op: WalletOp) -> bool {
        match op {
            WalletOp::Deposit(amount) => self.deposit(amount) is Ok
                ==> self.wallet.amount.adds_exactly(amount),
            WalletOp::Withdraw(amount) => self.withdraw(amount) is Ok
                ==> self.wallet.amount.subtracts_exactly(amount),
        }
    }

    /// None of `ops` is rounded.
    pub open spec fn exact_all(self, ops: Seq<WalletOp>) -> bool {
        forall|i: int| 0 <= i < ops.len() ==> #[trigger] self.after_all(ops.take(i)).exact(ops[i])
    }

    /// A locked account refuses every operation on its wallet.
    pub proof fn lemma_locked_refuses(self, amount: AmountView)
        requires
            self.locked,
        ensures
            self.deposit(amount) == Err::<AccountView, _>(
                AccountOperationError::AccountLocked(self.id),
            ),
            self.withdraw(amount) == Err::<AccountView, _>(
                AccountOperationError::AccountLocked(self.id),
            ),
            self.hold(amount) == Err::<AccountView, _>(
                AccountOperationError::AccountLocked(self.id),
            ),
            self.unhold(amount) == Err::<AccountView, _>(
                AccountOperationError::AccountLocked(self.id),
            ),
    {
    }

    /// One deposit or withdrawal that is not rounded moves the total by
    /// what it applies, and touches nothing else.
    pub proof fn lemma_step_moves_total(self, op: WalletOp)
        requires
            self.exact(op),
        ensures
            self.after(op).wallet.amount.units() == self.wallet.amount.units() + self.applied(op),
            self.after(op).wallet.held == self.wallet.held,
            self.after(op).id == self.id,
            self.after(op).locked == self.locked,
    {
        match op {
            WalletOp::Deposit(amount) => {
                if self.deposit(amount) is Ok {
                    self.wallet.amount.lemma_sum_is_exact(amount);
                }
            },
            WalletOp::Withdraw(amount) => {
                if self.withdraw(amount) is Ok {
                    self.wallet.amount.lemma_difference_is_exact(amount);
                }
            },
        }
    }

    /// Where none of `ops` is rounded, none of its first `steps` is.
    pub proof fn lemma_prefix_is_exact(self, ops: Seq<WalletOp>, steps: int)
        requires
            self.exact_all(ops),
            0 <= steps <= ops.len(),
        ensures
            self.exact_all(ops.take(steps)),
    {
        let done = ops.take(steps);
        assert forall|i: int| 0 <= i < done.len() implies #[trigger] self.after_all(
            done.take(i),
        ).exact(done[i]) by {
            assert(done.take(i) =~= ops.take(i));
            assert(self.after_all(ops.take(i)).exact(ops[i]));
        }
    }

    /// After any deposits and withdrawals of which none is rounded, the
    /// total is what it was plus the deposits less the withdrawals that
    /// were accepted, and what is held is untouched.
    pub proof fn lemma_total_follows_ledger(self, ops: Seq<WalletOp>)
        requires
            self.exact_all(ops),
        ensures
            self.after_all(ops).wallet.amount.units() == self.wallet.amount.units()
                + self.net_applied(ops),
            self.after_all(ops).wallet.held == self.wallet.held,
            self.after_all(ops).id == self.id,
            self.after_all(ops).locked == self.locked,
        decreases ops.len(),
    {
        if ops.len() > 0 {
            let before = ops.drop_last();
            assert(ops.take(ops.len() - 1) =~= before);
            self.lemma_prefix_is_exact(ops, ops.len() - 1);
            self.lemma_total_follows_ledger(before);
            assert(self.after_all(ops.take(ops.len() - 1)).exact(ops[ops.len() - 1]));
            self.after_all(before).lemma_step_moves_total(ops.last());
        }
    }

    /// After each step of any deposits and withdrawals of which none is
    /// rounded, the available funds are the total at the start, plus the
    /// deposits less the withdrawals accepted so far, less what is held;
    /// provided that this last difference is not rounded either.
    pub proof fn lemma_available_funds_follow_ledger(self, ops: Seq<WalletOp>, steps: int)
        requires
            self.exact_all(ops),
            0 <= steps <= ops.len(),
            self.after_all(ops.take(steps)).wallet.amount.subtracts_exactly(
                self.after_all(ops.take(steps)).wallet.held,
            ),
        ensures
            self.after_all(ops.take(steps)).wallet.available_funds() matches Some(available)
                && available.units() == self.wallet.amount.units() + self.net_applied(
                ops.take(steps),
            ) - self.after_all(ops.take(steps)).wallet.held.units(),
    {
        let done = ops.take(steps);
        self.lemma_prefix_is_exact(ops, steps);
        self.lemma_total_follows_ledger(done);
        let now = self.after_all(done);
        now.wallet.amount.lemma_difference_is_exact(now.wallet.held);
    }

    /// Holding back never takes more than there is: where what is held was
    /// within the total and nothing is rounded, it is still within the
    /// total after a hold.
    pub proof fn lemma_hold_stays_within_total(self, amount: AmountView)
        requires
            self.hold(amount) is Ok,
            self.wallet.amount.subtracts_exactly(self.wallet.held),
            self.wallet.held.adds_exactly(amount),
        ensures
            self.hold(amount).unwrap().wallet.held.units() <= self.wallet.amount.units(),
            self.hold(amount).unwrap().wallet.amount == self.wallet.amount,
    {
        self.wallet.amount.lemma_difference_is_exact(self.wallet.held);
        self.wallet.held.lemma_sum_is_exact(amount);
    }
}

/// A customer's account: its wallet, and whether a chargeback has frozen it.
#[derive(Debug)]
pub struct Account {
    id: AccountId,
    wallet: Wallet,
    locked: bool,
}

impl View for Account {
    type V = AccountView;

    closed spec fn view(&self) -> AccountView {
        AccountView { id: self.id, wallet: self.wallet@, locked: self.locked }
    }
}

impl Account {
    /// An empty account that is not locked.
    pub fn new(id: AccountId) -> (r: Self)
        ensures
            r@ == (AccountView {
                id,
                wallet: WalletView {
                    amount: AmountView { mantissa: 0, scale: 0 },
                    held: AmountView { mantissa: 0, scale: 0 },
                },
                locked: false,
            }),
    {
        Self { id, wallet: Wallet::default(), locked: false }
    }

    /// An account with the given wallet that is not locked.
    pub fn new_with_wallet(id: AccountId, wallet: Wallet) -> (r: Self)
        ensures
            r@ == (AccountView { id, wallet: wallet@, locked: false }),
    {
        Self { id, wallet, locked: false }
    }

    fn is_locked(&self) -> (r: Result<(), AccountOperationError>)
        ensures
            r == if self@.locked {
                Err::<(), AccountOperationError>(AccountOperationError::AccountLocked(self@.id))
            } else {
                Ok(())
            },
    {
        match self.locked {
            false => Ok(()),
            true => Err(AccountOperationError::AccountLocked(self.id)),
        }
    }

    pub fn get_id(&self) -> (r: AccountId)
        ensures
            r == self@.id,
    {
        self.id
    }

    pub fn wallet(&self) -> (r: &Wallet)
        ensures
            r@ == self@.wallet,
    {
        &self.wallet
    }

    /// Whether a chargeback has frozen the account.
    pub fn locked(&self) -> (r: bool)
        ensures
            r == self@.locked,
    {
        self.locked
    }

    /// Freezes the account. Nothing unfreezes it.
    pub fn lock(&mut self)
        ensures
            final(self)@ == (AccountView { locked: true, ..old(self)@ }),
    {
        self.locked = true;
    }

    /// Adds `amount` to the wallet. A locked account, an amount that is not
    /// positive and a total that overflows are refused, and then nothing
    /// changes.
    pub fn deposit(&mut self, amount: Amount) -> (r: Result<(), AccountOperationError>)
        ensures
            match old(self)@.deposit(amount@) {
                Ok(after) => r is Ok && final(self)@ == after,
                Err(e) => r == Err::<(), AccountOperationError>(e) && final(self)@ == old(self)@,
            },
            amount@.units() <= 0 || old(self)@.wallet.amount.sum(amount@) is None ==> r is Err
                && final(self)@.wallet.amount == old(self)@.wallet.amount,
    {
        proof {
            use_type_invariant(&amount);
            use_type_invariant(&self.wallet.amount);
        }
        if let Err(e) = self.is_locked() {
            return Err(e);
        }
        if !amount.exceeds(&Amount::zero()) {
            return Err(AccountOperationError::NonPositiveAmount);
        }
        match self.wallet.amount.checked_add(&amount) {
            Some(total) => {
                self.wallet.amount = total;
                Ok(())
            },
            None => Err(AccountOperationError::OverflowInWallet),
        }
    }

    /// Takes `amount` out of the wallet. A locked account, an amount that is
    /// not positive and one above the available funds are refused, as is a
    /// withdrawal whose available funds or rest do not fit in a decimal
    /// amount, and then nothing changes.
    pub fn withdraw(&mut self, amount: Amount) -> (r: Result<(), AccountOperationError>)
        ensures
            match old(self)@.withdraw(amount@) {
                Ok(after) => r is Ok && final(self)@ == after,
                Err(e) => r == Err::<(), AccountOperationError>(e) && final(self)@ == old(self)@,
            },
            old(self)@.wallet.available_funds() matches Some(available) && amount@.units()
                > available.units() ==> r is Err && final(self)@.wallet.amount
                == old(self)@.wallet.amount,
    {
        proof {
            use_type_invariant(&amount);
            use_type_invariant(&self.wallet.amount);
        }
        if let Err(e) = self.is_locked() {
            return Err(e);
        }
        if !amount.exceeds(&Amount::zero()) {
            return Err(AccountOperationError::NonPositiveAmount);
        }
        let available = match self.wallet.available_funds() {
            Some(available) => available,
            None => {
                return Err(AccountOperationError::OverflowInWallet);
            },
        };
        proof {
            use_type_invariant(&available);
        }
        if amount.exceeds(&available) {
            return Err(AccountOperationError::InsufficientFunds);
        }
        match self.wallet.amount.checked_sub(&amount) {
            Some(rest) => {
                self.wallet.amount = rest;
                Ok(())
            },
            None => Err(AccountOperationError::OverflowInWallet),
        }
    }

    /// Holds `amount` back. A locked account, an amount that is not positive
    /// and one above the available funds are refused, as is a hold whose
    /// available funds or held part do not fit in a decimal amount, and then
    /// nothing changes.
    pub fn hold(&mut self, amount: Amount) -> (r: Result<(), AccountOperationError>)
        ensures
            match old(self)@.hold(amount@) {
                Ok(after) => r is Ok && final(self)@ == after,
                Err(e) => r == Err::<(), AccountOperationError>(e) && final(self)@ == old(self)@,
            },
    {
        proof {
            use_type_invariant(&amount);
            use_type_invariant(&self.wallet.held);
        }
        if let Err(e) = self.is_locked() {
            return Err(e);
        }
        if !amount.exceeds(&Amount::zero()) {
            return Err(AccountOperationError::NonPositiveAmount);
        }
        let available = match self.wallet.available_funds() {
            Some(available) => available,
            None => {
                return Err(AccountOperationError::OverflowInWallet);
            },
        };
        proof {
            use_type_invariant(&available);
        }
        if amount.exceeds(&available) {
            return Err(AccountOperationError::InsufficientFunds);
        }
        match self.wallet.held.checked_add(&amount) {
            Some(held) => {
                self.wallet.held = held;
                Ok(())
            },
            None => Err(AccountOperationError::OverflowInWallet),
        }
    }

    /// Releases `amount` from what is held. A locked account, an amount that
    /// is not positive and one above what is held are refused, as is a
    /// release whose rest does not fit in a decimal amount, and then nothing
    /// changes.
    pub fn unhold(&mut self, amount: Amount) -> (r: Result<(), AccountOperationError>)
        ensures
            match old(self)@.unhold(amount@) {
                Ok(after) => r is Ok && final(self)@ == after,
                Err(e) => r == Err::<(), AccountOperationError>(e) && final(self)@ == old(self)@,
            },
    {
        proof {
            use_type_invariant(&amount);
            use_type_invariant(&self.wallet.held);
        }
        if let Err(e) = self.is_locked() {
            return Err(e);
        }
        if !amount.exceeds(&Amount::zero()) {
            return Err(AccountOperationError::NonPositiveAmount);
        }
        if amount.exceeds(&self.wallet.held) {
            return Err(AccountOperationError::InsufficientFunds);
        }
        match self.wallet.held.checked_sub(&amount) {
            Some(held) => {
                self.wallet.held = held;
                Ok(())
            },
            None => Err(AccountOperationError::OverflowInWallet),
        }
    }

    /// The account as one line of a snapshot: id, available, held, total and
    /// locked, separated by commas and ended by a line feed. `None` where the
    /// available funds do not fit in a decimal amount.
    pub fn to_record(&self) -> (r: Option<String>)
        ensures
            match r {
                Some(line) => self@.record() == Some(line@),
                None => self@.record() is None,
            },
    {
        proof {
            use_type_invariant(&self.wallet.amount);
            use_type_invariant(&self.wallet.held);
        }
        let available = match self.wallet.available_funds() {
            Some(available) => available,
            None => {
                return None;
            },
        };
        proof {
            use_type_invariant(&available);
        }
        let line = snapshot_line(
            self.id,
            available.to_text().as_str(),
            self.wallet.held.to_text().as_str(),
            self.wallet.amount.to_text().as_str(),
            self.locked,
        );
        Some(line)
    }
}

} // verus!
