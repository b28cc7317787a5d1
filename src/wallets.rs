use vstd::prelude::*;
use crate::accounts::{Account, AccountResponse, AccountResponseView, AccountState, AccountType};
use crate::text::owned;

verus! {

/// The two kinds of wallet.
#[derive(Clone, Copy, Debug, PartialEq, Eq, Structural)]
pub enum WalletType {
    Basic,
    MultiCurrency,
}

impl WalletType {
    /// The name of the kind, as it starts a wallet id.
    pub open spec fn spec_name(self) -> Seq<char> {
        match self {
            WalletType::Basic => "Basic"@,
            WalletType::MultiCurrency => "MultiCurrency"@,
        }
    }

    pub fn as_str(&self) -> (r: &'static str)
        ensures
            r@ == self.spec_name(),
    {
        match self {
            WalletType::Basic => "Basic",
            WalletType::MultiCurrency => "MultiCurrency",
        }
    }
}

/// Message of a currency that a wallet holds no account for.
pub open spec fn not_found_message(currency: Seq<char>) -> Seq<char> {
    "No account found with currency: "@ + currency
}

/// Message of a currency that a single-account wallet does not hold.
pub open spec fn mismatch_message() -> Seq<char> {
    "Currency mismatch"@
}

/// Message of a transfer out of a single-account wallet in another currency
/// than its account's.
pub open spec fn source_mismatch_message(held: Seq<char>, requested: Seq<char>) -> Seq<char> {
    "Source account currency: "@ + held + ", Receiver account currency: "@ + requested
        + ", mismatch"@
}

/// Message of an account added to a single-account wallet.
pub open spec fn bound_account_message() -> Seq<char> {
    "Cannot add an account after creation"@
}

/// Message of a second account in a currency a wallet already holds.
pub open spec fn duplicate_currency_message() -> Seq<char> {
    "Account with this currency already exists"@
}

/// What a wallet is: its identity, its kind, and its accounts in order.
pub struct WalletState {
    pub id: Seq<char>,
    pub kind: WalletType,
    pub accounts: Seq<AccountState>,
}

/// What a `WithdrawWalletResponse` holds.
pub struct WithdrawWalletResponseView {
    pub wallet_id: Seq<char>,
    pub wallet_type: WalletType,
    pub currency: Seq<char>,
    pub amount: int,
    pub account_number: Seq<char>,
    pub account_type: AccountType,
    pub balance: int,
    pub is_successful: bool,
    pub error_message: Option<Seq<char>>,
}

/// What a `TransferResponse` holds.
pub struct TransferResponseView {
    pub currency: Seq<char>,
    pub amount: int,
    pub sender_account_number: Seq<char>,
    pub sender_wallet_id: Seq<char>,
    pub sender_wallet_type: WalletType,
    pub recipient_account_number: Seq<char>,
    pub recipient_wallet_id: Seq<char>,
    pub recipient_wallet_type: WalletType,
    pub is_successful: bool,
    pub error_message: Option<Seq<char>>,
}

impl WalletState {
    /// Every account is well formed, no two share a currency, and a Basic
    /// wallet holds exactly one.
    pub open spec fn wf(self) -> bool {
        &&& forall|i: int| 0 <= i < self.accounts.len() ==> (#[trigger] self.accounts[i]).wf()
        &&& forall|i: int, j: int|
            #![trigger self.accounts[i], self.accounts[j]]
            0 <= i < j < self.accounts.len() ==> self.accounts[i].currency
                != self.accounts[j].currency
        &&& self.kind == WalletType::Basic ==> self.accounts.len() == 1
    }

    /// `i` is the first position of an account in `currency`.
    pub open spec fn is_first_in(self, currency: Seq<char>, i: int) -> bool {
        &&& 0 <= i < self.accounts.len()
        &&& self.accounts[i].currency == currency
        &&& forall|j: int| 0 <= j < i ==> (#[trigger] self.accounts[j]).currency != currency
    }

    /// The wallet holds an account in `currency`.
    pub open spec fn holds(self, currency: Seq<char>) -> bool {
        exists|i: int| 0 <= i < self.accounts.len() && (#[trigger] self.accounts[i]).currency == currency
    }

    /// The position of the first account in `currency`.
    pub open spec fn index_of(self, currency: Seq<char>) -> int {
        choose|i: int| self.is_first_in(currency, i)
    }

    /// The account in `currency`.
    pub open spec fn account_for(self, currency: Seq<char>) -> AccountState {
        self.accounts[self.index_of(currency)]
    }

    /// The number of the account in `currency`, empty when there is none.
    pub open spec fn number_for(self, currency: Seq<char>) -> Seq<char> {
        if self.holds(currency) {
            self.account_for(currency).number
        } else {
            Seq::empty()
        }
    }

    /// The wallet with its account in `currency` replaced by `account`.
    pub open spec fn with_account_for(self, currency: Seq<char>, account: AccountState) -> WalletState {
        WalletState { accounts: self.accounts.update(self.index_of(currency), account), ..self }
    }

    /// Message of an operation in a currency the wallet does not hold.
    pub open spec fn missing_message(self, currency: Seq<char>) -> Seq<char> {
        match self.kind {
            WalletType::Basic => mismatch_message(),
            WalletType::MultiCurrency => not_found_message(currency),
        }
    }

    /// Message of a transfer out of the wallet in a currency it does not
    /// hold.
    pub open spec fn missing_source_message(self, currency: Seq<char>) -> Seq<char> {
        match self.kind {
            WalletType::Basic => source_mismatch_message(self.accounts[0].currency, currency),
            WalletType::MultiCurrency => not_found_message(currency),
        }
    }

    /// The account type that a response about a missing currency reports.
    pub open spec fn fallback_kind(self) -> AccountType {
        if self.kind == WalletType::MultiCurrency && self.accounts.len() > 0 {
            self.accounts[0].kind
        } else {
            AccountType::Basic
        }
    }

    /// Why adding `account` fails, if it does.
    pub open spec fn add_error(self, account: AccountState) -> Option<Seq<char>> {
        match self.kind {
            WalletType::Basic => Some(bound_account_message()),
            WalletType::MultiCurrency => if self.holds(account.currency) {
                Some(duplicate_currency_message())
            } else {
                None
            },
        }
    }

    /// Why depositing `amount` in `currency` fails, if it does.
    pub open spec fn deposit_error(self, currency: Seq<char>, amount: int) -> Option<Seq<char>> {
        if self.holds(currency) {
            self.account_for(currency).deposit_error(amount)
        } else {
            Some(self.missing_message(currency))
        }
    }

    /// Why withdrawing `amount` in `currency` fails, if it does.
    pub open spec fn withdraw_error(self, currency: Seq<char>, amount: int) -> Option<Seq<char>> {
        if self.holds(currency) {
            self.account_for(currency).withdraw_error(amount)
        } else {
            Some(self.missing_message(currency))
        }
    }

    /// The wallet after a deposit of `amount` in `currency`.
    pub open spec fn after_deposit(self, currency: Seq<char>, amount: int) -> WalletState {
        if self.holds(currency) {
            self.with_account_for(currency, self.account_for(currency).after_deposit(amount))
        } else {
            self
        }
    }

    /// The wallet after a withdrawal of `amount` in `currency`.
    pub open spec fn after_withdraw(self, currency: Seq<char>, amount: int) -> WalletState {
        if self.holds(currency) {
            self.with_account_for(currency, self.account_for(currency).after_withdraw(amount))
        } else {
            self
        }
    }

    /// The response of a deposit of `amount` in `currency`.
    pub open spec fn deposit_response(self, currency: Seq<char>, amount: int) -> AccountResponseView {
        if self.holds(currency) {
            let account = self.account_for(currency);
            account.after_deposit(amount).response(account.deposit_error(amount))
        } else {
            AccountResponseView {
                account_number: Seq::empty(),
                account_type: self.fallback_kind(),
                currency,
                balance: 0,
                is_successful: false,
                error_message: Some(self.missing_message(currency)),
            }
        }
    }

    /// The response of a withdrawal of `amount` in `currency`.
    pub open spec fn withdraw_response(self, currency: Seq<char>, amount: int) -> WithdrawWalletResponseView {
        if self.holds(currency) {
            let account = self.account_for(currency);
            let after = account.after_withdraw(amount);
            WithdrawWalletResponseView {
                wallet_id: self.id,
                wallet_type: self.kind,
                currency,
                amount,
                account_number: after.number,
                account_type: after.kind,
                balance: after.balance,
                is_successful: account.withdraw_error(amount) is None,
                error_message: account.withdraw_error(amount),
            }
        } else {
            WithdrawWalletResponseView {
                wallet_id: self.id,
                wallet_type: self.kind,
                currency,
                amount,
                account_number: Seq::empty(),
                account_type: self.fallback_kind(),
                balance: 0,
                is_successful: false,
                error_message: Some(self.missing_message(currency)),
            }
        }
    }

    /// Why a transfer of `amount` in `currency` from this wallet to `to`
    /// fails, if it does: no account here, the withdrawal here, or the
    /// deposit there.
    pub open spec fn transfer_error(self, to: WalletState, currency: Seq<char>, amount: int) -> Option<Seq<char>> {
        if !self.holds(currency) {
            Some(self.missing_source_message(currency))
        } else if self.withdraw_error(currency, amount) is Some {
            self.withdraw_error(currency, amount)
        } else {
            to.deposit_error(currency, amount)
        }
    }

    /// The sender after a transfer to `to`: debited on success, unchanged
    /// on any failure.
    pub open spec fn after_transfer_out(self, to: WalletState, currency: Seq<char>, amount: int) -> WalletState {
        if self.transfer_error(to, currency, amount) is None {
            self.after_withdraw(currency, amount)
        } else {
            self
        }
    }

    /// The recipient `to` after a transfer from this wallet: credited on
    /// success, unchanged on any failure.
    pub open spec fn after_transfer_in(self, to: WalletState, currency: Seq<char>, amount: int) -> WalletState {
        if self.transfer_error(to, currency, amount) is None {
            to.after_deposit(currency, amount)
        } else {
            to
        }
    }

    /// The response of a transfer from this wallet to `to`.
    pub open spec fn transfer_response(self, to: WalletState, currency: Seq<char>, amount: int) -> TransferResponseView {
        let error = self.transfer_error(to, currency, amount);
        TransferResponseView {
            currency,
            amount: if self.holds(currency) { amount } else { 0 },
            sender_account_number: self.number_for(currency),
            sender_wallet_id: self.id,
            sender_wallet_type: self.kind,
            recipient_account_number: to.number_for(currency),
            recipient_wallet_id: to.id,
            recipient_wallet_type: to.kind,
            is_successful: error is None,
            error_message: error,
        }
    }
}

/// The outcome of a transfer between two wallets.
pub struct TransferResponse {
    pub currency: String,
    pub amount: i64,
    pub sender_account_number: String,
    pub sender_wallet_id: String,
    pub sender_wallet_type: WalletType,
    pub recipient_account_number: String,
    pub recipient_wallet_id: String,
    pub recipient_wallet_type: WalletType,
    pub is_successful: bool,
    pub error_message: Option<String>,
}

impl View for TransferResponse {
    type V = TransferResponseView;

    open spec fn view(&self) -> TransferResponseView {
        TransferResponseView {
            currency: self.currency@,
            amount: self.amount as int,
            sender_account_number: self.sender_account_number@,
            sender_wallet_id: self.sender_wallet_id@,
            sender_wallet_type: self.sender_wallet_type,
            recipient_account_number: self.recipient_account_number@,
            recipient_wallet_id: self.recipient_wallet_id@,
            recipient_wallet_type: self.recipient_wallet_type,
            is_successful: self.is_successful,
            error_message: self.error_message.deep_view(),
        }
    }
}

/// The outcome of a withdrawal from a wallet.
pub struct WithdrawWalletResponse {
    pub wallet_id: String,
    pub wallet_type: WalletType,
    pub currency: String,
    pub amount: i64,
    pub account_number: String,
    pub account_type: AccountType,
    pub balance: i64,
    pub is_successful: bool,
    pub error_message: Option<String>,
}

impl View for WithdrawWalletResponse {
    type V = WithdrawWalletResponseView;

    open spec fn view(&self) -> WithdrawWalletResponseView {
        WithdrawWalletResponseView {
            wallet_id: self.wallet_id@,
            wallet_type: self.wallet_type,
            currency: self.currency@,
            amount: self.amount as int,
            account_number: self.account_number@,
            account_type: self.account_type,
            balance: self.balance as int,
            is_successful: self.is_successful,
            error_message: self.error_message.deep_view(),
        }
    }
}


/// The first match found by a scan is the account the model speaks of.
pub proof fn lemma_first_is_index(w: WalletState, currency: Seq<char>, i: int)
    requires
        w.is_first_in(currency, i),
    ensures
        w.holds(currency),
        w.index_of(currency) == i,
{
    assert(w.accounts[i].currency == currency);
    let k = w.index_of(currency);
    assert(w.is_first_in(currency, k));
    if k < i {
        assert(w.accounts[k].currency != currency);
    } else if i < k {
        assert(w.accounts[i].currency != currency);
    }
}

/// In a well-formed wallet, any account in `currency` is the one the model
/// speaks of.
pub proof fn lemma_match_is_index(w: WalletState, currency: Seq<char>, i: int)
    requires
        w.wf(),
        0 <= i < w.accounts.len(),
        w.accounts[i].currency == currency,
    ensures
        w.holds(currency),
        w.index_of(currency) == i,
{
    assert forall|j: int| 0 <= j < i implies (#[trigger] w.accounts[j]).currency != currency by {
        assert(w.accounts[j].currency != w.accounts[i].currency);
    }
    lemma_first_is_index(w, currency, i);
}

/// In a well-formed wallet that holds `currency`, its position is that of
/// the first account in it.
pub proof fn lemma_index_in_range(w: WalletState, currency: Seq<char>)
    requires
        w.wf(),
        w.holds(currency),
    ensures
        w.is_first_in(currency, w.index_of(currency)),
{
    let i = choose|i: int| 0 <= i < w.accounts.len() && (#[trigger] w.accounts[i]).currency == currency;
    lemma_match_is_index(w, currency, i);
}

/// A failed deposit or withdrawal leaves the wallet as it was.
pub proof fn lemma_failure_unchanged(w: WalletState, currency: Seq<char>, amount: int)
    requires
        w.wf(),
    ensures
        w.deposit_error(currency, amount) is Some ==> w.after_deposit(currency, amount) == w,
        w.withdraw_error(currency, amount) is Some ==> w.after_withdraw(currency, amount) == w,
{
    if w.holds(currency) {
        let i = choose|i: int| 0 <= i < w.accounts.len() && (#[trigger] w.accounts[i]).currency == currency;
        lemma_match_is_index(w, currency, i);
        assert(w.accounts.update(i, w.accounts[i]) =~= w.accounts);
    }
}

/// Depositing back what a successful withdrawal took out restores the
/// wallet exactly.
pub proof fn lemma_withdraw_then_deposit(w: WalletState, currency: Seq<char>, amount: int)
    requires
        w.wf(),
        w.holds(currency),
        w.withdraw_error(currency, amount) is None,
    ensures
        w.after_withdraw(currency, amount).holds(currency),
        w.after_withdraw(currency, amount).index_of(currency) == w.index_of(currency),
        w.after_withdraw(currency, amount).after_deposit(currency, amount) == w,
{
    let i = choose|i: int| 0 <= i < w.accounts.len() && (#[trigger] w.accounts[i]).currency == currency;
    lemma_match_is_index(w, currency, i);
    let t = w.after_withdraw(currency, amount);
    assert(t.accounts[i].currency == currency);
    assert forall|j: int| 0 <= j < i implies (#[trigger] t.accounts[j]).currency != currency by {
        assert(t.accounts[j] == w.accounts[j]);
        assert(w.accounts[j].currency != w.accounts[i].currency);
    }
    lemma_first_is_index(t, currency, i);
    assert(t.after_deposit(currency, amount).accounts =~= w.accounts);
}

/// The operations every kind of wallet offers, keyed by currency.
pub trait Wallet: Sized {
    /// The kind of account the wallet holds.
    type Held: Account;

    /// The wallet as a value.
    spec fn state(&self) -> WalletState;

    /// Adds `account`; refused by a single-account wallet, and by a wallet
    /// that already holds an account in the same currency.
    fn add_account(&mut self, account: Self::Held) -> (r: Result<&Self::Held, String>)
        requires
            old(self).state().wf(),
            account.state().wf(),
        ensures
            final(self).state().wf(),
            match old(self).state().add_error(account.state()) {
                Some(message) => {
                    &&& r matches Err(e) && e@ == message
                    &&& final(self).state() == old(self).state()
                },
                None => {
                    &&& r matches Ok(a) && a.state() == account.state()
                    &&& final(self).state() == (WalletState {
                        accounts: old(self).state().accounts.push(account.state()),
                        ..old(self).state()
                    })
                },
            },
    ;

    /// The balance of the account in `currency`.
    fn balance(&self, currency: &str) -> (r: Result<i64, String>)
        requires
            self.state().wf(),
        ensures
            match r {
                Ok(b) => self.state().holds(currency@) && b == self.state().account_for(currency@).balance,
                Err(e) => !self.state().holds(currency@) && e@ == not_found_message(currency@),
            },
    ;

    fn get_wallet_id(&self) -> (r: &str)
        ensures
            r@ == self.state().id,
    ;

    fn get_wallet_type(&self) -> (r: WalletType)
        ensures
            r == self.state().kind,
    ;

    /// The position of the account in `currency`.
    fn find_account_index_by_currency(&self, currency: &str) -> (r: Option<usize>)
        requires
            self.state().wf(),
        ensures
            match r {
                Some(i) => self.state().holds(currency@) && i == self.state().index_of(currency@),
                None => !self.state().holds(currency@),
            },
    ;

    /// The number of the account at position `index`.
    fn get_account_number_by_index(&self, index: usize) -> (r: Option<&str>)
        ensures
            match r {
                Some(n) => index < self.state().accounts.len() && n@ == self.state().accounts[index as int].number,
                None => index >= self.state().accounts.len(),
            },
    ;

    /// The account in `currency`.
    fn get_account_by_currency(&self, currency: &str) -> (r: Option<&Self::Held>)
        requires
            self.state().wf(),
        ensures
            match r {
                Some(a) => self.state().holds(currency@) && a.state() == self.state().account_for(currency@),
                None => !self.state().holds(currency@),
            },
    ;

    /// Deposits `amount` into the account in `currency`.
    fn deposit(&mut self, currency: &str, amount: i64) -> (r: AccountResponse)
        requires
            old(self).state().wf(),
        ensures
            final(self).state().wf(),
            final(self).state() == old(self).state().after_deposit(currency@, amount as int),
            r@ == old(self).state().deposit_response(currency@, amount as int),
    ;

    /// Withdraws `amount` from the account in `currency`.
    fn withdraw(&mut self, currency: &str, amount: i64) -> (r: WithdrawWalletResponse)
        requires
            old(self).state().wf(),
        ensures
            final(self).state().wf(),
            final(self).state() == old(self).state().after_withdraw(currency@, amount as int),
            r@ == old(self).state().withdraw_response(currency@, amount as int),
    ;

    /// The message of a transfer out of this wallet in `currency` when it
    /// holds no account in it.
    fn missing_source_text(&self, currency: &str) -> (r: String)
        requires
            self.state().wf(),
        ensures
            r@ == self.state().missing_source_message(currency@),
    ;
}


pub(crate) fn not_found_text(currency: &str) -> (r: String)
    ensures
        r@ == not_found_message(currency@),
{
    let mut text = owned("No account found with currency: ");
    text.append(currency);
    text
}

pub(crate) fn source_mismatch_text(held: &str, requested: &str) -> (r: String)
    ensures
        r@ == source_mismatch_message(held@, requested@),
{
    let mut text = owned("Source account currency: ");
    text.append(held);
    text.append(", Receiver account currency: ");
    text.append(requested);
    text.append(", mismatch");
    text
}

/// Moves `amount` in `currency` from wallet `from` to wallet `to`: withdraws
/// from the sender's account in that currency, deposits into the
/// recipient's, and when that deposit fails deposits the amount back, so a
/// failed transfer leaves both wallets as they were.
pub fn transfer_between_wallets<S: Wallet, W: Wallet>(
    from: &mut S,
    to: &mut W,
    currency: &str,
    amount: i64,
) -> (r: TransferResponse)
    requires
        old(from).state().wf(),
        old(to).state().wf(),
    ensures
        final(from).state().wf(),
        final(to).state().wf(),
        final(from).state() == old(from).state().after_transfer_out(old(to).state(), currency@, amount as int),
        final(to).state() == old(from).state().after_transfer_in(old(to).state(), currency@, amount as int),
        r@ == old(from).state().transfer_response(old(to).state(), currency@, amount as int),
{
    proof {
        lemma_failure_unchanged(from.state(), currency@, amount as int);
        lemma_failure_unchanged(to.state(), currency@, amount as int);
        if from.state().holds(currency@) {
            lemma_index_in_range(from.state(), currency@);
        }
        if to.state().holds(currency@) {
            lemma_index_in_range(to.state(), currency@);
        }
    }
    let sender_wallet_id = owned(from.get_wallet_id());
    let sender_wallet_type = from.get_wallet_type();
    let recipient_wallet_id = owned(to.get_wallet_id());
    let recipient_wallet_type = to.get_wallet_type();
    let recipient_account_number = match to.find_account_index_by_currency(currency) {
        Some(i) => match to.get_account_number_by_index(i) {
            Some(n) => owned(n),
            None => String::new(),
        },
        None => String::new(),
    };
    let found = from.find_account_index_by_currency(currency);
    let (sender_account_number, sent, error) = match found {
        None => (String::new(), 0, Some(from.missing_source_text(currency))),
        Some(i) => {
            let sender_account_number = match from.get_account_number_by_index(i) {
                Some(n) => owned(n),
                None => String::new(),
            };
            let withdrawal = from.withdraw(currency, amount);
            let error = if !withdrawal.is_successful {
                withdrawal.error_message
            } else {
                let deposit = to.deposit(currency, amount);
                if deposit.is_successful {
                    None
                } else {
                    // the amount was just taken out, so putting it back fits
                    proof {
                        lemma_withdraw_then_deposit(old(from).state(), currency@, amount as int);
                    }
                    from.deposit(currency, amount);
                    deposit.error_message
                }
            };
            (sender_account_number, amount, error)
        },
    };
    let is_successful = match &error {
        Some(_) => false,
        None => true,
    };
    TransferResponse {
        currency: owned(currency),
        amount: sent,
        sender_account_number,
        sender_wallet_id,
        sender_wallet_type,
        recipient_account_number,
        recipient_wallet_id,
        recipient_wallet_type,
        is_successful,
        error_message: error,
    }
}

} // verus!
