use wallet_system::accounts::{Account, AccountType};
use wallet_system::any_account::AnyAccount;
use wallet_system::basic_account::BasicAccount;
use wallet_system::basic_wallet::BasicWallet;
use wallet_system::multi_currency_wallet::MultiCurrencyWallet;
use wallet_system::premium_account::PremiumAccount;
use wallet_system::wallets::{Wallet, WalletType};

// Amounts are in hundredths: 10_000 is 100.00.

#[test]
fn negative_deposit_is_refused_on_both_kinds() {
    let mut basic = BasicAccount::new("USD");
    basic.deposit(1_000);
    let response = basic.deposit(-1);
    assert!(!response.is_successful);
    assert_eq!(response.balance, 1_000);
    assert_eq!(response.error_message.unwrap(), "Cannot deposit a negative amount");
    assert_eq!(basic.get_balance(), 1_000);

    let mut premium = PremiumAccount::new("USD", 500);
    let response = premium.deposit(-250);
    assert!(!response.is_successful);
    assert_eq!(premium.get_balance(), 0);
}

#[test]
fn negative_withdrawal_message() {
    let mut account = PremiumAccount::new("USD", 500);
    let response = account.withdraw(-1);
    assert!(!response.is_successful);
    assert_eq!(response.error_message.unwrap(), "Cannot withdraw a negative amount");
    assert_eq!(account.get_balance(), 0);
}

#[test]
fn basic_withdrawal_up_to_the_balance() {
    let mut account = BasicAccount::new("USD");
    account.deposit(7_500);
    let refused = account.withdraw(7_501);
    assert!(!refused.is_successful);
    assert_eq!(refused.error_message.unwrap(), "Insufficient funds");
    assert_eq!(account.get_balance(), 7_500);
    let taken = account.withdraw(7_500);
    assert!(taken.is_successful);
    assert_eq!(taken.balance, 0);
    assert_eq!(taken.error_message, None);
    assert_eq!(account.get_balance(), 0);
}

#[test]
fn premium_withdrawal_up_to_the_overdraft() {
    let mut account = PremiumAccount::new("USD", 50_000);
    account.deposit(20_000);
    let refused = account.withdraw(70_001);
    assert!(!refused.is_successful);
    assert_eq!(refused.error_message.unwrap(), "Overdraft limit exceeded");
    assert_eq!(account.get_balance(), 20_000);
    let taken = account.withdraw(70_000);
    assert!(taken.is_successful);
    assert_eq!(account.get_balance(), -50_000);
    assert!(!account.withdraw(1).is_successful);
    assert!(account.withdraw(0).is_successful);
}

#[test]
fn deposit_past_the_largest_balance_is_refused() {
    let mut account = BasicAccount::new("USD");
    assert!(account.deposit(i64::MAX).is_successful);
    let response = account.deposit(1);
    assert!(!response.is_successful);
    assert_eq!(response.error_message.unwrap(), "Balance limit exceeded");
    assert_eq!(account.get_balance(), i64::MAX);
}

#[test]
fn scenario_basic_account_deposit_then_overdraw() {
    let mut account = BasicAccount::new("USD");
    let deposit = account.deposit(10_000);
    assert!(deposit.is_successful);
    assert_eq!(deposit.balance, 10_000);
    assert_eq!(account.get_balance(), 10_000);
    let withdrawal = account.withdraw(15_000);
    assert!(!withdrawal.is_successful);
    assert_eq!(withdrawal.error_message.unwrap(), "Insufficient funds");
    assert_eq!(account.get_balance(), 10_000);
}

#[test]
fn scenario_premium_account_into_overdraft() {
    let mut account = PremiumAccount::new("USD", 50_000);
    account.deposit(20_000);
    let withdrawal = account.withdraw(60_000);
    assert!(withdrawal.is_successful);
    assert_eq!(account.get_balance(), -40_000);
    let further = account.withdraw(10_010);
    assert!(!further.is_successful);
    assert_eq!(further.error_message.unwrap(), "Overdraft limit exceeded");
    assert_eq!(account.get_balance(), -40_000);
}

#[test]
fn scenario_transfer_between_basic_wallets() {
    let mut wallet1 = BasicWallet::new(BasicAccount::new("USD"));
    let mut wallet2 = BasicWallet::new(BasicAccount::new("USD"));
    wallet1.deposit("USD", 10_000);
    let response = wallet1.transfer(&mut wallet2, "USD", 5_000);
    assert!(response.is_successful);
    assert_eq!(response.error_message, None);
    assert_eq!(response.amount, 5_000);
    assert_eq!(response.currency, "USD");
    assert_eq!(response.sender_wallet_id, wallet1.get_wallet_id());
    assert_eq!(response.recipient_wallet_id, wallet2.get_wallet_id());
    assert_eq!(response.sender_account_number, wallet1.get_account_number_by_index(0).unwrap());
    assert_eq!(response.recipient_account_number, wallet2.get_account_number_by_index(0).unwrap());
    assert_eq!(wallet1.balance("USD").unwrap(), 5_000);
    assert_eq!(wallet2.balance("USD").unwrap(), 5_000);
}

#[test]
fn scenario_multi_currency_wallet_keeps_currencies_apart() {
    let mut wallet = MultiCurrencyWallet::new();
    wallet.add_account(AnyAccount::from(BasicAccount::new("USD"))).unwrap();
    wallet.add_account(AnyAccount::from(BasicAccount::new("EUR"))).unwrap();
    assert!(wallet.deposit("USD", 10_000).is_successful);
    assert!(wallet.deposit("EUR", 20_000).is_successful);
    assert_eq!(wallet.balance("USD").unwrap(), 10_000);
    assert_eq!(wallet.balance("EUR").unwrap(), 20_000);
    let response = wallet.deposit("GBP", 5_000);
    assert!(!response.is_successful);
    assert_eq!(response.error_message.unwrap(), "No account found with currency: GBP");
    assert_eq!(wallet.balance("GBP").unwrap_err(), "No account found with currency: GBP");
}

#[test]
fn failed_recipient_deposit_rolls_back_the_sender() {
    let mut sender = MultiCurrencyWallet::new();
    sender.add_account(AnyAccount::from(BasicAccount::new("USD"))).unwrap();
    sender.deposit("USD", 10_000);
    let mut recipient = BasicWallet::new(BasicAccount::new("EUR"));
    let response = sender.transfer(&mut recipient, "USD", 5_000);
    assert!(!response.is_successful);
    assert_eq!(response.error_message.unwrap(), "Currency mismatch");
    assert_eq!(response.recipient_account_number, "");
    assert_eq!(sender.balance("USD").unwrap(), 10_000);
    assert_eq!(recipient.balance("EUR").unwrap(), 0);
}

#[test]
fn failed_recipient_deposit_between_accounts_rolls_back() {
    let mut sender = PremiumAccount::new("USD", 1_000);
    sender.deposit(300);
    let mut recipient = BasicAccount::new("USD");
    recipient.deposit(i64::MAX);
    let response = sender.transfer(&mut recipient, 500);
    assert!(!response.is_successful);
    assert_eq!(response.error_message.unwrap(), "Balance limit exceeded");
    assert_eq!(response.balance, 300);
    assert_eq!(sender.get_balance(), 300);
    assert_eq!(recipient.get_balance(), i64::MAX);
}

#[test]
fn failed_withdrawal_in_account_transfer_reports_its_message() {
    let mut sender = BasicAccount::new("USD");
    let mut recipient = PremiumAccount::new("USD", 100);
    let response = sender.transfer(&mut recipient, -5);
    assert!(!response.is_successful);
    assert_eq!(response.error_message.unwrap(), "Cannot withdraw a negative amount");
    assert_eq!(response.recipient_account_number, recipient.get_account_number());
    assert_eq!(response.recipient_account_type, AccountType::Premium);
    assert_eq!(recipient.get_balance(), 0);
}

#[test]
fn multi_currency_wallet_refuses_a_second_account_in_a_currency() {
    let mut wallet = MultiCurrencyWallet::new();
    wallet.add_account(AnyAccount::from(BasicAccount::new("USD"))).unwrap();
    let second = wallet.add_account(AnyAccount::from(PremiumAccount::new("USD", 100)));
    assert_eq!(second.err().unwrap(), "Account with this currency already exists");
    assert_eq!(wallet.get_account_number_by_index(1), None);
    assert!(wallet.add_account(AnyAccount::from(PremiumAccount::new("EUR", 100))).is_ok());
    assert_eq!(wallet.find_account_index_by_currency("EUR"), Some(1));
}

#[test]
fn basic_wallet_refuses_any_added_account() {
    let mut wallet = BasicWallet::new(BasicAccount::new("USD"));
    let added = wallet.add_account(BasicAccount::new("EUR"));
    assert_eq!(added.err().unwrap(), "Cannot add an account after creation");
    assert!(wallet.balance("EUR").is_err());
    assert_eq!(wallet.find_account_index_by_currency("EUR"), None);
    assert_eq!(wallet.find_account_index_by_currency("USD"), Some(0));
}

#[test]
fn transfer_from_a_wallet_without_the_currency() {
    let mut sender = MultiCurrencyWallet::new();
    sender.add_account(AnyAccount::from(BasicAccount::new("USD"))).unwrap();
    sender.deposit("USD", 10_000);
    let mut recipient = BasicWallet::new(BasicAccount::new("EUR"));
    let response = sender.transfer(&mut recipient, "EUR", 5_000);
    assert!(!response.is_successful);
    assert_eq!(response.error_message.unwrap(), "No account found with currency: EUR");
    assert_eq!(response.amount, 0);
    assert_eq!(response.sender_account_number, "");
    assert_eq!(response.recipient_account_number, recipient.get_account_number_by_index(0).unwrap());
    assert_eq!(response.sender_wallet_type, WalletType::MultiCurrency);
    assert_eq!(response.recipient_wallet_type, WalletType::Basic);
    assert_eq!(sender.balance("USD").unwrap(), 10_000);
}

#[test]
fn wallet_withdraw_response_fields() {
    let mut wallet = MultiCurrencyWallet::new();
    wallet.add_account(AnyAccount::from(PremiumAccount::new("EUR", 1_000))).unwrap();
    let response = wallet.withdraw("EUR", 400);
    assert!(response.is_successful);
    assert_eq!(response.balance, -400);
    assert_eq!(response.amount, 400);
    assert_eq!(response.account_type, AccountType::Premium);
    assert_eq!(response.wallet_type, WalletType::MultiCurrency);
    assert_eq!(response.wallet_id, wallet.get_wallet_id());
    assert_eq!(response.account_number, wallet.get_account_number_by_index(0).unwrap());
    let missing = wallet.withdraw("USD", 1);
    assert!(!missing.is_successful);
    assert_eq!(missing.account_number, "");
    assert_eq!(missing.account_type, AccountType::Premium);
    assert_eq!(missing.balance, 0);
}

#[test]
fn empty_multi_currency_wallet_reports_missing_currency() {
    let mut wallet = MultiCurrencyWallet::new();
    let response = wallet.deposit("USD", 100);
    assert!(!response.is_successful);
    assert_eq!(response.account_type, AccountType::Basic);
    assert_eq!(response.currency, "USD");
    assert!(wallet.get_account_by_currency("USD").is_none());
}

#[test]
fn account_found_by_currency() {
    let mut wallet = MultiCurrencyWallet::new();
    wallet.add_account(AnyAccount::from(BasicAccount::new("USD"))).unwrap();
    wallet.add_account(AnyAccount::from(PremiumAccount::new("JPY", 900))).unwrap();
    let account = wallet.get_account_by_currency("JPY").unwrap();
    assert_eq!(account.get_account_type(), AccountType::Premium);
    assert_eq!(account.get_overdraft_limit(), 900);
    assert!(account.get_account_number().starts_with("Premium-"));
}

#[test]
fn identifiers_have_a_kind_prefix_and_ten_random_characters() {
    let account = BasicAccount::new("USD");
    let number = account.get_account_number();
    assert!(number.starts_with("Basic-"));
    assert_eq!(number.len(), 16);
    assert!(number["Basic-".len()..].chars().all(|c| c.is_ascii_alphanumeric()));

    let premium = PremiumAccount::new("USD", 0);
    assert!(premium.get_account_number().starts_with("Premium-"));
    assert_eq!(premium.get_account_number().len(), 18);

    let wallet = MultiCurrencyWallet::new();
    let id = wallet.get_wallet_id();
    assert!(id.starts_with("MultiCurrency-"));
    assert_eq!(id.len(), 24);
    assert!(id["MultiCurrency-".len()..].chars().all(|c| c.is_ascii_alphanumeric()));

    let basic_wallet = BasicWallet::new(BasicAccount::new("USD"));
    assert!(basic_wallet.get_wallet_id().starts_with("Basic-"));
    assert_eq!(basic_wallet.get_wallet_id().len(), 16);
}

#[test]
fn identifiers_with_a_given_suffix() {
    let account = BasicAccount::with_number_suffix("USD", "abc");
    assert_eq!(account.get_account_number(), "Basic-abc");
    let premium = PremiumAccount::with_number_suffix("EUR", 100, "XYZ0123456");
    assert_eq!(premium.get_account_number(), "Premium-XYZ0123456");
    assert_eq!(premium.get_currency(), "EUR");
    let wallet = BasicWallet::with_id_suffix(account, "w1");
    assert_eq!(wallet.get_wallet_id(), "Basic-w1");
    let multi = MultiCurrencyWallet::with_id_suffix("m2");
    assert_eq!(multi.get_wallet_id(), "MultiCurrency-m2");
    assert_eq!(AccountType::Premium.as_str(), "Premium");
    assert_eq!(WalletType::MultiCurrency.as_str(), "MultiCurrency");
}
