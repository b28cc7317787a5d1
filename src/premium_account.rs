use vstd::prelude::*;
use crate::accounts::{
    Account, AccountResponse, AccountState, AccountTransferResponse, AccountType, transfer_between,
};
use crate::ids::{fresh_suffix, identifier, identifier_of, is_fresh_identifier, is_identifier_suffix};
use crate::ledger::Ledger;

verus! {

/// An account that may overdraw down to minus its overdraft limit.
pub struct PremiumAccount {
    ledger: Ledger,
}

impl PremiumAccount {
    /// A new account with a zero balance and a random account number
    /// `"Premium-"` followed by ten letters and digits.
    pub fn new(currency: &str, overdraft_limit: i64) -> (r: Self)
        requires
            0 <= overdraft_limit,
        ensures
            r.state().kind == AccountType::Premium,
            r.state().currency == currency@,
            r.state().balance == 0,
            r.state().overdraft_limit == overdraft_limit,
            is_fresh_identifier(r.state().number, AccountType::Premium.spec_name()),
            r.state().wf(),
    {
        let suffix = fresh_suffix();
        let r = Self::with_number_suffix(currency, overdraft_limit, suffix.as_str());
        assert(is_identifier_suffix(suffix@));
        r
    }

    /// A new account with a zero balance whose account number ends in
    /// `suffix` in place of random characters.
    pub fn with_number_suffix(currency: &str, overdraft_limit: i64, suffix: &str) -> (r: Self)
        requires
            0 <= overdraft_limit,
        ensures
            r.state().kind == AccountType::Premium,
            r.state().currency == currency@,
            r.state().balance == 0,
            r.state().overdraft_limit == overdraft_limit,
            r.state().number == identifier_of(AccountType::Premium.spec_name(), suffix@),
            r.state().wf(),
    {
        let number = identifier(AccountType::Premium.as_str(), suffix);
        PremiumAccount { ledger: Ledger::new(AccountType::Premium, currency, number, overdraft_limit) }
    }

    /// Sends `amount` to `to_account`; see `transfer_between`.
    pub fn transfer<T: Account>(&mut self, to_account: &mut T, amount: i64) -> (r:
        AccountTransferResponse)
        requires
            old(self).state().wf(),
            old(to_account).state().wf(),
        ensures
            final(self).state().wf(),
            final(to_account).state().wf(),
            final(self).state() == old(self).state().after_transfer_out(
                old(to_account).state(),
                amount as int,
            ),
            final(to_account).state() == old(self).state().after_transfer_in(
                old(to_account).state(),
                amount as int,
            ),
            r@ == final(self).state().transfer_response(
                old(to_account).state(),
                old(self).state().transfer_error(old(to_account).state(), amount as int),
            ),
    {
        transfer_between(self, to_account, amount)
    }
}

impl Account for PremiumAccount {
    closed spec fn state(&self) -> AccountState {
        self.ledger.state()
    }

    fn get_balance(&self) -> (r: i64) {
        self.ledger.balance
    }

    fn deposit(&mut self, amount: i64) -> (r: AccountResponse) {
        self.ledger.deposit(amount)
    }

    fn withdraw(&mut self, amount: i64) -> (r: AccountResponse) {
        self.ledger.withdraw(amount)
    }

    fn get_currency(&self) -> (r: &str) {
        self.ledger.currency.as_str()
    }

    fn get_account_number(&self) -> (r: &str) {
        self.ledger.account_number.as_str()
    }

    fn get_account_type(&self) -> (r: AccountType) {
        self.ledger.kind
    }

    fn get_overdraft_limit(&self) -> (r: i64) {
        self.ledger.overdraft_limit
    }
}

} // verus!
