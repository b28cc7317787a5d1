use vstd::prelude::*;
use crate::accounts::{Account, AccountResponse, AccountType};
use crate::any_account::AnyAccount;
use crate::ids::{fresh_suffix, identifier, identifier_of, is_fresh_identifier, is_identifier_suffix};
use crate::text::{owned, same_text};
use crate::wallets::{
    TransferResponse, Wallet, WalletState, WalletType, WithdrawWalletResponse,
    duplicate_currency_message, lemma_first_is_index, lemma_index_in_range, not_found_text,
    transfer_between_wallets,
};

verus! {

/// A wallet holding any number of accounts, at most one per currency, in
/// the order they were added.
pub struct MultiCurrencyWallet {
    accounts: Vec<AnyAccount>,
    wallet_id: String,
}

impl MultiCurrencyWallet {
    /// An empty wallet with a random id `"MultiCurrency-"` followed by ten
    /// letters and digits.
    pub fn new() -> (r: Self)
        ensures
            r.state().kind == WalletType::MultiCurrency,
            r.state().accounts.len() == 0,
            is_fresh_identifier(r.state().id, WalletType::MultiCurrency.spec_name()),
            r.state().wf(),
    {
        let suffix = fresh_suffix();
        let r = Self::with_id_suffix(suffix.as_str());
        assert(is_identifier_suffix(suffix@));
        r
    }

    /// An empty wallet whose id ends in `suffix` in place of random
    /// characters.
    pub fn with_id_suffix(suffix: &str) -> (r: Self)
        ensures
            r.state().kind == WalletType::MultiCurrency,
            r.state().accounts.len() == 0,
            r.state().id == identifier_of(WalletType::MultiCurrency.spec_name(), suffix@),
            r.state().wf(),
    {
        let wallet_id = identifier(WalletType::MultiCurrency.as_str(), suffix);
        let r = MultiCurrencyWallet { accounts: Vec::new(), wallet_id };
        assert(r.state().accounts =~= Seq::empty());
        r
    }

    /// Sends `amount` in `currency` to `to_wallet`; see
    /// `transfer_between_wallets`.
    pub fn transfer<W: Wallet>(&mut self, to_wallet: &mut W, currency: &str, amount: i64) -> (r:
        TransferResponse)
        requires
            old(self).state().wf(),
            old(to_wallet).state().wf(),
        ensures
            final(self).state().wf(),
            final(to_wallet).state().wf(),
            final(self).state() == old(self).state().after_transfer_out(
                old(to_wallet).state(),
                currency@,
                amount as int,
            ),
            final(to_wallet).state() == old(self).state().after_transfer_in(
                old(to_wallet).state(),
                currency@,
                amount as int,
            ),
            r@ == old(self).state().transfer_response(old(to_wallet).state(), currency@, amount as int),
    {
        transfer_between_wallets(self, to_wallet, currency, amount)
    }

    /// The position of the first account in `currency`, by a scan in order.
    fn position(&self, currency: &str) -> (r: Option<usize>)
        requires
            self.state().wf(),
        ensures
            match r {
                Some(i) => self.state().holds(currency@) && i == self.state().index_of(currency@)
                    && i < self.accounts.len(),
                None => !self.state().holds(currency@),
            },
    {
        let mut i: usize = 0;
        while i < self.accounts.len()
            invariant
                i <= self.accounts.len(),
                self.state().wf(),
                forall|j: int| 0 <= j < i ==> (#[trigger] self.state().accounts[j]).currency != currency@,
            decreases self.accounts.len() - i,
        {
            if same_text(self.accounts[i].get_currency(), currency) {
                proof {
                    lemma_first_is_index(self.state(), currency@, i as int);
                }
                return Some(i);
            }
            i = i + 1;
        }
        assert(!self.state().holds(currency@)) by {
            assert forall|j: int| 0 <= j < self.state().accounts.len() implies (#[trigger] self.state().accounts[j]).currency != currency@ by {}
        }
        None
    }

    /// The account type that a response about a missing currency reports.
    fn fallback_kind(&self) -> (r: AccountType)
        ensures
            r == self.state().fallback_kind(),
    {
        if self.accounts.len() > 0 {
            self.accounts[0].get_account_type()
        } else {
            AccountType::Basic
        }
    }
}

impl Wallet for MultiCurrencyWallet {
    type Held = AnyAccount;

    closed spec fn state(&self) -> WalletState {
        WalletState {
            id: self.wallet_id@,
            kind: WalletType::MultiCurrency,
            accounts: self.accounts@.map_values(|a: AnyAccount| a.state()),
        }
    }

    fn add_account(&mut self, account: AnyAccount) -> (r: Result<&AnyAccount, String>) {
        match self.position(account.get_currency()) {
            Some(_) => {
                let text = owned("Account with this currency already exists");
                assert(text@ == duplicate_currency_message());
                Err(text)
            },
            None => {
                let ghost before = self.state();
                self.accounts.push(account);
                assert(self.state().accounts =~= before.accounts.push(account.state()));
                assert(self.state().wf()) by {
                    assert forall|i: int, j: int|
                        #![trigger self.state().accounts[i], self.state().accounts[j]]
                        0 <= i < j < self.state().accounts.len() implies self.state().accounts[i].currency
                            != self.state().accounts[j].currency by {
                        if j == before.accounts.len() {
                            assert(self.state().accounts[i] == before.accounts[i]);
                        }
                    }
                }
                let last = self.accounts.len() - 1;
                Ok(&self.accounts[last])
            },
        }
    }

    fn balance(&self, currency: &str) -> (r: Result<i64, String>) {
        match self.position(currency) {
            Some(i) => Ok(self.accounts[i].get_balance()),
            None => Err(not_found_text(currency)),
        }
    }

    fn get_wallet_id(&self) -> (r: &str) {
        self.wallet_id.as_str()
    }

    fn get_wallet_type(&self) -> (r: WalletType) {
        WalletType::MultiCurrency
    }

    fn find_account_index_by_currency(&self, currency: &str) -> (r: Option<usize>) {
        self.position(currency)
    }

    fn get_account_number_by_index(&self, index: usize) -> (r: Option<&str>) {
        if index < self.accounts.len() {
            Some(self.accounts[index].get_account_number())
        } else {
            None
        }
    }

    fn get_account_by_currency(&self, currency: &str) -> (r: Option<&AnyAccount>) {
        match self.position(currency) {
            Some(i) => Some(&self.accounts[i]),
            None => None,
        }
    }

    fn deposit(&mut self, currency: &str, amount: i64) -> (r: AccountResponse) {
        match self.position(currency) {
            Some(i) => {
                proof {
                    lemma_index_in_range(self.state(), currency@);
                }
                let r = self.accounts[i].deposit(amount);
                assert(self.state().accounts =~= old(self).state().accounts.update(
                    i as int,
                    self.accounts@[i as int].state(),
                ));
                r
            },
            None => AccountResponse {
                account_number: String::new(),
                account_type: self.fallback_kind(),
                currency: owned(currency),
                balance: 0,
                is_successful: false,
                error_message: Some(not_found_text(currency)),
            },
        }
    }

    fn withdraw(&mut self, currency: &str, amount: i64) -> (r: WithdrawWalletResponse) {
        match self.position(currency) {
            Some(i) => {
                proof {
                    lemma_index_in_range(self.state(), currency@);
                }
                let withdrawal = self.accounts[i].withdraw(amount);
                assert(self.state().accounts =~= old(self).state().accounts.update(
                    i as int,
                    self.accounts@[i as int].state(),
                ));
                WithdrawWalletResponse {
                    wallet_id: self.wallet_id.clone(),
                    wallet_type: WalletType::MultiCurrency,
                    currency: owned(currency),
                    amount,
                    account_number: withdrawal.account_number,
                    account_type: withdrawal.account_type,
                    balance: withdrawal.balance,
                    is_successful: withdrawal.is_successful,
                    error_message: withdrawal.error_message,
                }
            },
            None => WithdrawWalletResponse {
                wallet_id: self.wallet_id.clone(),
                wallet_type: WalletType::MultiCurrency,
                currency: owned(currency),
                amount,
                account_number: String::new(),
                account_type: self.fallback_kind(),
                balance: 0,
                is_successful: false,
                error_message: Some(not_found_text(currency)),
            },
        }
    }

    fn missing_source_text(&self, currency: &str) -> (r: String) {
        not_found_text(currency)
    }
}

} // verus!
