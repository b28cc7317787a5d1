use vstd::prelude::*;
use crate::accounts::{
    Account, AccountResponse, AccountState, AccountTransferResponse, AccountType, transfer_between,
};
use crate::basic_account::BasicAccount;
use crate::premium_account::PremiumAccount;

verus! {

/// An account of either kind, as a wallet that holds several kinds keeps it.
pub enum AnyAccount {
    Basic(BasicAccount),
    Premium(PremiumAccount),
}

impl AnyAccount {
    /// Sends `amount` to `to_account`; see `transfer_between`.
    pub fn transfer<T: Account>(&mut self, to_account: &mut T, amount: i64) -> (r:
        AccountTransferResponse)
        requires
            old(self).state().wf(),
            old(to_account).state().wf(),
        ensures
            final(self).state().wf(),
            final(to_account).state().wf(),
            final(self).state() == old(self).state().after_transfer_out(
                old(to_account).state(),
                amount as int,
            ),
            final(to_account).state() == old(self).state().after_transfer_in(
                old(to_account).state(),
                amount as int,
            ),
            r@ == final(self).state().transfer_response(
                old(to_account).state(),
                old(self).state().transfer_error(old(to_account).state(), amount as int),
            ),
    {
        transfer_between(self, to_account, amount)
    }
}

impl From<BasicAccount> for AnyAccount {
    fn from(account: BasicAccount) -> (r: AnyAccount) {
        AnyAccount::Basic(account)
    }
}

impl vstd::std_specs::convert::FromSpecImpl<BasicAccount> for AnyAccount {
    open spec fn obeys_from_spec() -> bool {
        true
    }

    open spec fn from_spec(account: BasicAccount) -> AnyAccount {
        AnyAccount::Basic(account)
    }
}

impl From<PremiumAccount> for AnyAccount {
    fn from(account: PremiumAccount) -> (r: AnyAccount) {
        AnyAccount::Premium(account)
    }
}

impl vstd::std_specs::convert::FromSpecImpl<PremiumAccount> for AnyAccount {
    open spec fn obeys_from_spec() -> bool {
        true
    }

    open spec fn from_spec(account: PremiumAccount) -> AnyAccount {
        AnyAccount::Premium(account)
    }
}

impl Account for AnyAccount {
    open spec fn state(&self) -> AccountState {
        match self {
            AnyAccount::Basic(a) => a.state(),
            AnyAccount::Premium(a) => a.state(),
        }
    }

    fn get_balance(&self) -> (r: i64) {
        match self {
            AnyAccount::Basic(a) => a.get_balance(),
            AnyAccount::Premium(a) => a.get_balance(),
        }
    }

    fn deposit(&mut self, amount: i64) -> (r: AccountResponse) {
        match self {
            AnyAccount::Basic(a) => a.deposit(amount),
            AnyAccount::Premium(a) => a.deposit(amount),
        }
    }

    fn withdraw(&mut self, amount: i64) -> (r: AccountResponse) {
        match self {
            AnyAccount::Basic(a) => a.withdraw(amount),
            AnyAccount::Premium(a) => a.withdraw(amount),
        }
    }

    fn get_currency(&self) -> (r: &str) {
        match self {
            AnyAccount::Basic(a) => a.get_currency(),
            AnyAccount::Premium(a) => a.get_currency(),
        }
    }

    fn get_account_number(&self) -> (r: &str) {
        match self {
            AnyAccount::Basic(a) => a.get_account_number(),
            AnyAccount::Premium(a) => a.get_account_number(),
        }
    }

    fn get_account_type(&self) -> (r: AccountType) {
        match self {
            AnyAccount::Basic(a) => a.get_account_type(),
            AnyAccount::Premium(a) => a.get_account_type(),
        }
    }

    fn get_overdraft_limit(&self) -> (r: i64) {
        match self {
            AnyAccount::Basic(a) => a.get_overdraft_limit(),
            AnyAccount::Premium(a) => a.get_overdraft_limit(),
        }
    }
}

} // verus!
