use vstd::prelude::*;
use crate::text::owned;

verus! {

/// The two kinds of account.
#[derive(Clone, Copy, Debug, PartialEq, Eq, Structural)]
pub enum AccountType {
    Basic,
    Premium,
}

impl AccountType {
    /// The name of the kind, as it starts an account number.
    pub open spec fn spec_name(self) -> Seq<char> {
        match self {
            AccountType::Basic => "Basic"@,
            AccountType::Premium => "Premium"@,
        }
    }

    pub fn as_str(&self) -> (r: &'static str)
        ensures
            r@ == self.spec_name(),
    {
        match self {
            AccountType::Basic => "Basic",
            AccountType::Premium => "Premium",
        }
    }
}


/// Message of a deposit of a negative amount.
pub open spec fn negative_deposit_message() -> Seq<char> {
    "Cannot deposit a negative amount"@
}

/// Message of a withdrawal of a negative amount.
pub open spec fn negative_withdrawal_message() -> Seq<char> {
    "Cannot withdraw a negative amount"@
}

/// Message of a Basic withdrawal beyond the balance.
pub open spec fn insufficient_funds_message() -> Seq<char> {
    "Insufficient funds"@
}

/// Message of a Premium withdrawal beyond the balance and the overdraft.
pub open spec fn overdraft_exceeded_message() -> Seq<char> {
    "Overdraft limit exceeded"@
}

/// Message of a deposit whose result would not fit in a balance.
pub open spec fn balance_limit_message() -> Seq<char> {
    "Balance limit exceeded"@
}

/// What an account is: its identity, its currency, its balance and the
/// overdraft it may use (zero for a Basic account).
pub struct AccountState {
    pub number: Seq<char>,
    pub kind: AccountType,
    pub currency: Seq<char>,
    pub balance: int,
    pub overdraft_limit: int,
}

/// What an `AccountResponse` holds.
pub struct AccountResponseView {
    pub account_number: Seq<char>,
    pub account_type: AccountType,
    pub currency: Seq<char>,
    pub balance: int,
    pub is_successful: bool,
    pub error_message: Option<Seq<char>>,
}

/// What an `AccountTransferResponse` holds.
pub struct AccountTransferResponseView {
    pub account_number: Seq<char>,
    pub account_type: AccountType,
    pub currency: Seq<char>,
    pub recipient_account_number: Seq<char>,
    pub recipient_account_type: AccountType,
    pub balance: int,
    pub is_successful: bool,
    pub error_message: Option<Seq<char>>,
}

impl AccountState {
    /// The overdraft limit is non-negative, zero for a Basic account, and
    /// the balance never goes below its negation.
    pub open spec fn wf(self) -> bool {
        &&& 0 <= self.overdraft_limit <= i64::MAX
        &&& self.kind == AccountType::Basic ==> self.overdraft_limit == 0
        &&& -self.overdraft_limit <= self.balance <= i64::MAX
    }

    pub open spec fn with_balance(self, balance: int) -> AccountState {
        AccountState { balance, ..self }
    }

    /// The message of a withdrawal that the balance does not cover.
    pub open spec fn shortfall_message(self) -> Seq<char> {
        match self.kind {
            AccountType::Basic => insufficient_funds_message(),
            AccountType::Premium => overdraft_exceeded_message(),
        }
    }

    /// Why depositing `amount` fails, if it does.
    pub open spec fn deposit_error(self, amount: int) -> Option<Seq<char>> {
        if amount < 0 {
            Some(negative_deposit_message())
        } else if self.balance + amount > i64::MAX {
            Some(balance_limit_message())
        } else {
            None
        }
    }

    /// Why withdrawing `amount` fails, if it does.
    pub open spec fn withdraw_error(self, amount: int) -> Option<Seq<char>> {
        if amount < 0 {
            Some(negative_withdrawal_message())
        } else if amount > self.balance + self.overdraft_limit {
            Some(self.shortfall_message())
        } else {
            None
        }
    }

    /// The account after a deposit of `amount`.
    pub open spec fn after_deposit(self, amount: int) -> AccountState {
        if self.deposit_error(amount) is None {
            self.with_balance(self.balance + amount)
        } else {
            self
        }
    }

    /// The account after a withdrawal of `amount`.
    pub open spec fn after_withdraw(self, amount: int) -> AccountState {
        if self.withdraw_error(amount) is None {
            self.with_balance(self.balance - amount)
        } else {
            self
        }
    }

    /// The response that reports `error` (or success) on this account.
    pub open spec fn response(self, error: Option<Seq<char>>) -> AccountResponseView {
        AccountResponseView {
            account_number: self.number,
            account_type: self.kind,
            currency: self.currency,
            balance: self.balance,
            is_successful: error is None,
            error_message: error,
        }
    }

    /// Why a transfer of `amount` from this account to `to` fails, if it
    /// does: the withdrawal here, else the deposit there.
    pub open spec fn transfer_error(self, to: AccountState, amount: int) -> Option<Seq<char>> {
        if self.withdraw_error(amount) is Some {
            self.withdraw_error(amount)
        } else {
            to.deposit_error(amount)
        }
    }

    /// The sender after a transfer of `amount` to `to`: debited on
    /// success, unchanged on any failure.
    pub open spec fn after_transfer_out(self, to: AccountState, amount: int) -> AccountState {
        if self.transfer_error(to, amount) is None {
            self.with_balance(self.balance - amount)
        } else {
            self
        }
    }

    /// The recipient `to` after a transfer of `amount` from this account.
    pub open spec fn after_transfer_in(self, to: AccountState, amount: int) -> AccountState {
        if self.transfer_error(to, amount) is None {
            to.with_balance(to.balance + amount)
        } else {
            to
        }
    }

    /// The response of a transfer from this account (as it stands after
    /// the transfer) to `to`, reporting `error` or success.
    pub open spec fn transfer_response(
        self,
        to: AccountState,
        error: Option<Seq<char>>,
    ) -> AccountTransferResponseView {
        AccountTransferResponseView {
            account_number: self.number,
            account_type: self.kind,
            currency: self.currency,
            recipient_account_number: to.number,
            recipient_account_type: to.kind,
            balance: self.balance,
            is_successful: error is None,
            error_message: error,
        }
    }
}

/// The outcome of a deposit or a withdrawal on one account, copied from the
/// account when the operation ended.
pub struct AccountResponse {
    pub account_number: String,
    pub account_type: AccountType,
    pub currency: String,
    pub balance: i64,
    pub is_successful: bool,
    pub error_message: Option<String>,
}

impl View for AccountResponse {
    type V = AccountResponseView;

    open spec fn view(&self) -> AccountResponseView {
        AccountResponseView {
            account_number: self.account_number@,
            account_type: self.account_type,
            currency: self.currency@,
            balance: self.balance as int,
            is_successful: self.is_successful,
            error_message: self.error_message.deep_view(),
        }
    }
}

/// The outcome of a transfer between two accounts, as the sender sees it.
pub struct AccountTransferResponse {
    pub account_number: String,
    pub account_type: AccountType,
    pub currency: String,
    pub recipient_account_number: String,
    pub recipient_account_type: AccountType,
    pub balance: i64,
    pub is_successful: bool,
    pub error_message: Option<String>,
}

impl View for AccountTransferResponse {
    type V = AccountTransferResponseView;

    open spec fn view(&self) -> AccountTransferResponseView {
        AccountTransferResponseView {
            account_number: self.account_number@,
            account_type: self.account_type,
            currency: self.currency@,
            recipient_account_number: self.recipient_account_number@,
            recipient_account_type: self.recipient_account_type,
            balance: self.balance as int,
            is_successful: self.is_successful,
            error_message: self.error_message.deep_view(),
        }
    }
}

/// The operations every kind of account offers.
pub trait Account: Sized {
    /// The account as a value.
    spec fn state(&self) -> AccountState;

    fn get_balance(&self) -> (r: i64)
        ensures
            r == self.state().balance,
    ;

    /// Adds `amount` to the balance; refuses a negative amount and one that
    /// would take the balance past what it can hold.
    fn deposit(&mut self, amount: i64) -> (r: AccountResponse)
        requires
            old(self).state().wf(),
        ensures
            final(self).state().wf(),
            final(self).state() == old(self).state().after_deposit(amount as int),
            r@ == final(self).state().response(old(self).state().deposit_error(amount as int)),
    ;

    /// Takes `amount` from the balance when the balance plus the overdraft
    /// limit covers it; refuses a negative amount.
    fn withdraw(&mut self, amount: i64) -> (r: AccountResponse)
        requires
            old(self).state().wf(),
        ensures
            final(self).state().wf(),
            final(self).state() == old(self).state().after_withdraw(amount as int),
            r@ == final(self).state().response(old(self).state().withdraw_error(amount as int)),
    ;

    fn get_currency(&self) -> (r: &str)
        ensures
            r@ == self.state().currency,
    ;

    fn get_account_number(&self) -> (r: &str)
        ensures
            r@ == self.state().number,
    ;

    fn get_account_type(&self) -> (r: AccountType)
        ensures
            r == self.state().kind,
    ;

    fn get_overdraft_limit(&self) -> (r: i64)
        ensures
            r == self.state().overdraft_limit,
    ;
}


/// Withdraws `amount` from `from` and deposits it into `to`. When the deposit
/// fails the withdrawal is undone, so a failed transfer leaves both accounts
/// as they were.
pub fn transfer_between<S: Account, T: Account>(from: &mut S, to: &mut T, amount: i64) -> (r:
    AccountTransferResponse)
    requires
        old(from).state().wf(),
        old(to).state().wf(),
    ensures
        final(from).state().wf(),
        final(to).state().wf(),
        final(from).state() == old(from).state().after_transfer_out(old(to).state(), amount as int),
        final(to).state() == old(from).state().after_transfer_in(old(to).state(), amount as int),
        r@ == final(from).state().transfer_response(
            old(to).state(),
            old(from).state().transfer_error(old(to).state(), amount as int),
        ),
{
    let recipient_account_number = owned(to.get_account_number());
    let recipient_account_type = to.get_account_type();
    let withdrawal = from.withdraw(amount);
    let error = if !withdrawal.is_successful {
        withdrawal.error_message
    } else {
        let deposit = to.deposit(amount);
        if deposit.is_successful {
            None
        } else {
            // the amount was just taken out, so putting it back fits
            from.deposit(amount);
            deposit.error_message
        }
    };
    let is_successful = match &error {
        Some(_) => false,
        None => true,
    };
    AccountTransferResponse {
        account_number: owned(from.get_account_number()),
        account_type: from.get_account_type(),
        currency: owned(from.get_currency()),
        recipient_account_number,
        recipient_account_type,
        balance: from.get_balance(),
        is_successful,
        error_message: error,
    }
}

} // verus!
