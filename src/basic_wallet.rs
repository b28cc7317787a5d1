use vstd::prelude::*;
use crate::accounts::{Account, AccountResponse, AccountType};
use crate::ids::{fresh_suffix, identifier, identifier_of, is_fresh_identifier, is_identifier_suffix};
use crate::text::{owned, same_text};
use crate::wallets::{
    TransferResponse, Wallet, WalletState, WalletType, WithdrawWalletResponse,
    bound_account_message, lemma_match_is_index, not_found_text, source_mismatch_text,
    transfer_between_wallets,
};

verus! {

/// A wallet bound to one account for its whole life.
pub struct BasicWallet<A: Account> {
    wallet_id: String,
    account: A,
}

impl<A: Account> BasicWallet<A> {
    /// A wallet holding `account`, with a random id `"Basic-"` followed by
    /// ten letters and digits.
    pub fn new(account: A) -> (r: Self)
        requires
            account.state().wf(),
        ensures
            r.state().kind == WalletType::Basic,
            r.state().accounts == seq![account.state()],
            is_fresh_identifier(r.state().id, WalletType::Basic.spec_name()),
            r.state().wf(),
    {
        let suffix = fresh_suffix();
        let r = Self::with_id_suffix(account, suffix.as_str());
        assert(is_identifier_suffix(suffix@));
        r
    }

    /// A wallet holding `account` whose id ends in `suffix` in place of
    /// random characters.
    pub fn with_id_suffix(account: A, suffix: &str) -> (r: Self)
        requires
            account.state().wf(),
        ensures
            r.state().kind == WalletType::Basic,
            r.state().accounts == seq![account.state()],
            r.state().id == identifier_of(WalletType::Basic.spec_name(), suffix@),
            r.state().wf(),
    {
        let wallet_id = identifier(WalletType::Basic.as_str(), suffix);
        BasicWallet { wallet_id, account }
    }

    /// Sends `amount` in `currency` to `to_wallet`; see
    /// `transfer_between_wallets`.
    pub fn transfer<W: Wallet>(&mut self, to_wallet: &mut W, currency: &str, amount: i64) -> (r:
        TransferResponse)
        requires
            old(self).state().wf(),
            old(to_wallet).state().wf(),
        ensures
            final(self).state().wf(),
            final(to_wallet).state().wf(),
            final(self).state() == old(self).state().after_transfer_out(
                old(to_wallet).state(),
                currency@,
                amount as int,
            ),
            final(to_wallet).state() == old(self).state().after_transfer_in(
                old(to_wallet).state(),
                currency@,
                amount as int,
            ),
            r@ == old(self).state().transfer_response(old(to_wallet).state(), currency@, amount as int),
    {
        transfer_between_wallets(self, to_wallet, currency, amount)
    }

    /// Whether the bound account is in `currency`.
    fn serves(&self, currency: &str) -> (r: bool)
        requires
            self.state().wf(),
        ensures
            r == self.state().holds(currency@),
            r ==> self.state().index_of(currency@) == 0,
    {
        let r = same_text(self.account.get_currency(), currency);
        proof {
            if r {
                lemma_match_is_index(self.state(), currency@, 0);
            }
        }
        r
    }
}

impl<A: Account> Wallet for BasicWallet<A> {
    type Held = A;

    closed spec fn state(&self) -> WalletState {
        WalletState {
            id: self.wallet_id@,
            kind: WalletType::Basic,
            accounts: seq![self.account.state()],
        }
    }

    fn add_account(&mut self, account: A) -> (r: Result<&A, String>) {
        let text = owned("Cannot add an account after creation");
        assert(text@ == bound_account_message());
        Err(text)
    }

    fn balance(&self, currency: &str) -> (r: Result<i64, String>) {
        if self.serves(currency) {
            Ok(self.account.get_balance())
        } else {
            Err(not_found_text(currency))
        }
    }

    fn get_wallet_id(&self) -> (r: &str) {
        self.wallet_id.as_str()
    }

    fn get_wallet_type(&self) -> (r: WalletType) {
        WalletType::Basic
    }

    fn find_account_index_by_currency(&self, currency: &str) -> (r: Option<usize>) {
        if self.serves(currency) {
            Some(0)
        } else {
            None
        }
    }

    fn get_account_number_by_index(&self, index: usize) -> (r: Option<&str>) {
        if index == 0 {
            Some(self.account.get_account_number())
        } else {
            None
        }
    }

    fn get_account_by_currency(&self, currency: &str) -> (r: Option<&A>) {
        if self.serves(currency) {
            Some(&self.account)
        } else {
            None
        }
    }

    fn deposit(&mut self, currency: &str, amount: i64) -> (r: AccountResponse) {
        if self.serves(currency) {
            let r = self.account.deposit(amount);
            assert(self.state().accounts =~= old(self).state().accounts.update(0, self.account.state()));
            r
        } else {
            AccountResponse {
                account_number: String::new(),
                account_type: AccountType::Basic,
                currency: owned(currency),
                balance: 0,
                is_successful: false,
                error_message: Some(owned("Currency mismatch")),
            }
        }
    }

    fn withdraw(&mut self, currency: &str, amount: i64) -> (r: WithdrawWalletResponse) {
        if self.serves(currency) {
            let withdrawal = self.account.withdraw(amount);
            assert(self.state().accounts =~= old(self).state().accounts.update(0, self.account.state()));
            WithdrawWalletResponse {
                wallet_id: self.wallet_id.clone(),
                wallet_type: WalletType::Basic,
                currency: owned(currency),
                amount,
                account_number: owned(self.account.get_account_number()),
                account_type: self.account.get_account_type(),
                balance: self.account.get_balance(),
                is_successful: withdrawal.is_successful,
                error_message: withdrawal.error_message,
            }
        } else {
            WithdrawWalletResponse {
                wallet_id: self.wallet_id.clone(),
                wallet_type: WalletType::Basic,
                currency: owned(currency),
                amount,
                account_number: String::new(),
                account_type: AccountType::Basic,
                balance: 0,
                is_successful: false,
                error_message: Some(owned("Currency mismatch")),
            }
        }
    }

    fn missing_source_text(&self, currency: &str) -> (r: String) {
        source_mismatch_text(self.account.get_currency(), currency)
    }
}

} // verus!
