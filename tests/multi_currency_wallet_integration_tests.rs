use wallet_system::accounts::Account;
use wallet_system::any_account::AnyAccount;
use wallet_system::basic_account::BasicAccount;
use wallet_system::basic_wallet::BasicWallet;
use wallet_system::multi_currency_wallet::MultiCurrencyWallet;
use wallet_system::wallets::{Wallet, WalletType};

// Amounts are in hundredths: 10_000 is 100.00.

#[test]
fn test_new_multi_currency_wallet() {
    let wallet = MultiCurrencyWallet::new();
    assert_eq!(wallet.get_wallet_type(), WalletType::MultiCurrency);
}

#[test]
fn test_deposit_multi_currency_wallet() {
    let mut wallet = MultiCurrencyWallet::new();
    let account = BasicAccount::new("USD");
    wallet.add_account(AnyAccount::from(account)).expect("Failed to add account");
    let response = wallet.deposit("USD", 10_000);
    assert!(response.is_successful);
    assert_eq!(wallet.balance("USD").unwrap(), 10_000);
}

#[test]
fn test_withdraw_multi_currency_wallet() {
    let mut wallet = MultiCurrencyWallet::new();
    let account = BasicAccount::new("USD");
    wallet.add_account(AnyAccount::from(account)).expect("Failed to add account");
    wallet.deposit("USD", 10_000);
    let response = wallet.withdraw("USD", 5_000);
    assert!(response.is_successful);
    assert_eq!(wallet.balance("USD").unwrap(), 5_000);
}

#[test]
fn test_transfer_between_basic_and_multi_currency_wallet() {
    let account1 = BasicAccount::new("USD");
    let mut wallet1: BasicWallet<BasicAccount> = BasicWallet::new(account1);
    let mut wallet2 = MultiCurrencyWallet::new();
    let account2 = BasicAccount::new("USD");
    wallet2.add_account(AnyAccount::from(account2)).expect("Failed to add account");
    wallet1.deposit("USD", 10_000);
    let response = wallet1.transfer(&mut wallet2, "USD", 5_000);
    assert!(response.is_successful);
    assert_eq!(wallet1.balance("USD").unwrap(), 5_000);
    assert_eq!(wallet2.balance("USD").unwrap(), 5_000);
}

#[test]
fn test_transfer_between_multi_currency_and_basic_wallet() {
    let account1 = BasicAccount::new("USD");
    let mut wallet1: BasicWallet<BasicAccount> = BasicWallet::new(account1);
    let mut wallet2 = MultiCurrencyWallet::new();
    let account2 = BasicAccount::new("USD");
    wallet2.add_account(AnyAccount::from(account2)).expect("Failed to add account");
    wallet2.deposit("USD", 10_000);
    let response = wallet2.transfer(&mut wallet1, "USD", 5_000);
    assert!(response.is_successful);
    assert_eq!(wallet2.balance("USD").unwrap(), 5_000);
    assert_eq!(wallet1.balance("USD").unwrap(), 5_000);
}

#[test]
fn test_multi_currency_wallet_multiple_currencies() {
    let mut wallet = MultiCurrencyWallet::new();
    let account_usd = BasicAccount::new("USD");
    let account_eur = BasicAccount::new("EUR");
    wallet.add_account(AnyAccount::from(account_usd)).expect("Failed to add account");
    wallet.add_account(AnyAccount::from(account_eur)).expect("Failed to add account");
    wallet.deposit("USD", 10_000);
    wallet.deposit("EUR", 20_000);
    assert_eq!(wallet.balance("USD").unwrap(), 10_000);
    assert_eq!(wallet.balance("EUR").unwrap(), 20_000);
}

#[test]
fn test_deposit_wrong_currency_multi_currency_wallet() {
    let mut wallet = MultiCurrencyWallet::new();
    let account = BasicAccount::new("USD");
    wallet.add_account(AnyAccount::from(account)).expect("Failed to add account");
    let response = wallet.deposit("EUR", 10_000);
    assert!(!response.is_successful);
    assert_eq!(response.error_message.unwrap(), "No account found with currency: EUR");
}

#[test]
fn test_withdraw_wrong_currency_multi_currency_wallet() {
    let mut wallet = MultiCurrencyWallet::new();
    let account = BasicAccount::new("USD");
    wallet.add_account(AnyAccount::from(account)).expect("Failed to add account");
    wallet.deposit("USD", 10_000);
    let response = wallet.withdraw("EUR", 5_000);
    assert!(!response.is_successful);
    assert_eq!(response.error_message.unwrap(), "No account found with currency: EUR");
}

#[test]
fn test_transfer_insufficient_funds_multi_currency_wallet() {
    let account1 = BasicAccount::new("USD");
    let mut wallet1: BasicWallet<BasicAccount> = BasicWallet::new(account1);
    let mut wallet2 = MultiCurrencyWallet::new();
    let account2 = BasicAccount::new("USD");
    wallet2.add_account(AnyAccount::from(account2)).expect("Failed to add account");
    let response = wallet1.transfer(&mut wallet2, "USD", 5_000);
    assert!(!response.is_successful);
    assert_eq!(response.error_message.unwrap(), "Insufficient funds");
}

#[test]
fn test_transfer_wrong_currency_multi_currency_wallet() {
    let account1 = BasicAccount::new("USD");
    let mut wallet1: BasicWallet<BasicAccount> = BasicWallet::new(account1);
    let mut wallet2 = MultiCurrencyWallet::new();

    let account2 = BasicAccount::new("USD");
    let account = wallet2.add_account(AnyAccount::from(account2)).expect("Failed to add account");
    assert_eq!(account.get_currency(), "USD");

    wallet1.deposit("USD", 10_000);
    let response = wallet1.transfer(&mut wallet2, "EUR", 5_000);
    assert!(!response.is_successful);
    assert_eq!(
        response.error_message.unwrap(),
        "Source account currency: USD, Receiver account currency: EUR, mismatch"
    );
}
