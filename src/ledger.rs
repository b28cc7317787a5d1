use vstd::prelude::*;
use crate::accounts::{
    AccountResponse, AccountState, AccountType, balance_limit_message, negative_deposit_message,
    negative_withdrawal_message,
};
use crate::text::owned;

verus! {

/// The balance record that both kinds of account keep: the rules of
/// deposit and withdrawal live here once.
pub(crate) struct Ledger {
    pub(crate) balance: i64,
    pub(crate) overdraft_limit: i64,
    pub(crate) currency: String,
    pub(crate) account_number: String,
    pub(crate) kind: AccountType,
}

fn negative_deposit_text() -> (r: String)
    ensures
        r@ == negative_deposit_message(),
{
    owned("Cannot deposit a negative amount")
}

fn negative_withdrawal_text() -> (r: String)
    ensures
        r@ == negative_withdrawal_message(),
{
    owned("Cannot withdraw a negative amount")
}

fn balance_limit_text() -> (r: String)
    ensures
        r@ == balance_limit_message(),
{
    owned("Balance limit exceeded")
}

impl Ledger {
    pub(crate) open spec fn state(&self) -> AccountState {
        AccountState {
            number: self.account_number@,
            kind: self.kind,
            currency: self.currency@,
            balance: self.balance as int,
            overdraft_limit: self.overdraft_limit as int,
        }
    }

    /// An empty ledger.
    pub(crate) fn new(kind: AccountType, currency: &str, account_number: String, overdraft_limit: i64) -> (r: Ledger)
        requires
            0 <= overdraft_limit,
            kind == AccountType::Basic ==> overdraft_limit == 0,
        ensures
            r.state() == (AccountState {
                number: account_number@,
                kind,
                currency: currency@,
                balance: 0,
                overdraft_limit: overdraft_limit as int,
            }),
            r.state().wf(),
    {
        Ledger { balance: 0, overdraft_limit, currency: owned(currency), account_number, kind }
    }

    fn shortfall_text(&self) -> (r: String)
        ensures
            r@ == self.state().shortfall_message(),
    {
        match self.kind {
            AccountType::Basic => owned("Insufficient funds"),
            AccountType::Premium => owned("Overdraft limit exceeded"),
        }
    }

    fn respond(&self, error: Option<String>) -> (r: AccountResponse)
        ensures
            r@ == self.state().response(error.deep_view()),
    {
        let is_successful = match &error {
            Some(_) => false,
            None => true,
        };
        AccountResponse {
            account_number: self.account_number.clone(),
            account_type: self.kind,
            currency: self.currency.clone(),
            balance: self.balance,
            is_successful,
            error_message: error,
        }
    }

    pub(crate) fn deposit(&mut self, amount: i64) -> (r: AccountResponse)
        requires
            old(self).state().wf(),
        ensures
            final(self).state().wf(),
            final(self).state() == old(self).state().after_deposit(amount as int),
            r@ == final(self).state().response(old(self).state().deposit_error(amount as int)),
    {
        if amount < 0 {
            return self.respond(Some(negative_deposit_text()));
        }
        if self.balance > i64::MAX - amount {
            return self.respond(Some(balance_limit_text()));
        }
        self.balance = self.balance + amount;
        self.respond(None)
    }

    pub(crate) fn withdraw(&mut self, amount: i64) -> (r: AccountResponse)
        requires
            old(self).state().wf(),
        ensures
            final(self).state().wf(),
            final(self).state() == old(self).state().after_withdraw(amount as int),
            r@ == final(self).state().response(old(self).state().withdraw_error(amount as int)),
    {
        if amount < 0 {
            return self.respond(Some(negative_withdrawal_text()));
        }
        // amount and the limit are both non-negative, so the difference fits
        if amount - self.overdraft_limit > self.balance {
            let text = self.shortfall_text();
            return self.respond(Some(text));
        }
        self.balance = self.balance - amount;
        self.respond(None)
    }
}

} // verus!
