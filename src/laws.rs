use vstd::prelude::*;
use crate::accounts::{AccountState, AccountType};
use crate::wallets::{WalletState, WalletType};

verus! {

/// A deposit of a negative amount into any account fails and leaves the
/// balance as it was.
pub proof fn negative_deposit_changes_nothing(account: AccountState, amount: int)
    requires
        amount < 0,
    ensures
        account.after_deposit(amount) == account,
        !account.after_deposit(amount).response(account.deposit_error(amount)).is_successful,
        account.after_deposit(amount).response(account.deposit_error(amount)).balance
            == account.balance,
{
}

/// A withdrawal from a Basic account succeeds exactly when
/// `0 <= amount <= balance`, and then lowers the balance by `amount`;
/// otherwise the balance stays.
pub proof fn basic_withdrawal_rule(account: AccountState, amount: int)
    requires
        account.wf(),
        account.kind == AccountType::Basic,
    ensures
        account.withdraw_error(amount) is None <==> 0 <= amount <= account.balance,
        account.withdraw_error(amount) is None ==> account.after_withdraw(amount).balance
            == account.balance - amount,
        account.withdraw_error(amount) is Some ==> account.after_withdraw(amount) == account,
        account.after_withdraw(amount).balance >= 0,
{
}

/// A withdrawal from a Premium account with overdraft limit `L` succeeds
/// exactly when `0 <= amount <= balance + L`, and then lowers the balance by
/// `amount`, which never takes it below `-L`; otherwise the balance stays.
pub proof fn premium_withdrawal_rule(account: AccountState, amount: int)
    requires
        account.wf(),
        account.kind == AccountType::Premium,
    ensures
        account.withdraw_error(amount) is None <==> 0 <= amount <= account.balance
            + account.overdraft_limit,
        account.withdraw_error(amount) is None ==> account.after_withdraw(amount).balance
            == account.balance - amount,
        account.withdraw_error(amount) is Some ==> account.after_withdraw(amount) == account,
        account.after_withdraw(amount).balance >= -account.overdraft_limit,
{
}

/// A transfer between accounts that fails at the recipient's deposit leaves
/// the sender's balance where it was before the transfer.
pub proof fn failed_account_deposit_rolls_back(from: AccountState, to: AccountState, amount: int)
    requires
        from.withdraw_error(amount) is None,
        to.deposit_error(amount) is Some,
    ensures
        from.transfer_error(to, amount) is Some,
        from.after_transfer_out(to, amount).balance == from.balance,
        from.after_transfer_in(to, amount) == to,
{
}

/// A transfer between wallets that fails at the recipient's deposit leaves
/// the sender, and so its balance in that currency, as it was before.
pub proof fn failed_wallet_deposit_rolls_back(
    from: WalletState,
    to: WalletState,
    currency: Seq<char>,
    amount: int,
)
    requires
        from.holds(currency),
        from.withdraw_error(currency, amount) is None,
        to.deposit_error(currency, amount) is Some,
    ensures
        from.transfer_error(to, currency, amount) is Some,
        from.after_transfer_out(to, currency, amount) == from,
        from.after_transfer_out(to, currency, amount).account_for(currency).balance
            == from.account_for(currency).balance,
        from.after_transfer_in(to, currency, amount) == to,
{
}

/// A multi-currency wallet refuses an account in a currency it already
/// holds and takes one in any other; a single-account wallet refuses every
/// account after its creation.
pub proof fn add_account_rule(wallet: WalletState, account: AccountState)
    ensures
        wallet.kind == WalletType::Basic ==> wallet.add_error(account) is Some,
        wallet.kind == WalletType::MultiCurrency ==> (wallet.add_error(account) is Some
            <==> wallet.holds(account.currency)),
{
}

} // verus!
