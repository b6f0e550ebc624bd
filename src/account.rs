use vstd::prelude::*;

verus! {

/// The operation whose amount was refused.
#[derive(Debug, Clone, Copy, PartialEq, Eq, Structural)]
pub enum Operation {
    Deposit,
    Withdrawal,
}

/// Why an operation on an account was refused.
#[derive(Debug, Clone, Copy, PartialEq, Eq, Structural)]
pub enum AccountError {
    /// The amount given to the operation was not strictly positive.
    InvalidAmount(Operation),
    /// A withdrawal would take the balance below zero.
    InsufficientFunds,
}

impl AccountError {
    /// A sentence that describes the error to a person.
    pub fn message(&self) -> (r: &'static str)
        ensures
            r@ == match *self {
                AccountError::InvalidAmount(Operation::Deposit) => "Deposit amount must be positive"@,
                AccountError::InvalidAmount(Operation::Withdrawal) => "Withdrawal amount must be positive"@,
                AccountError::InsufficientFunds => "Insufficient funds"@,
            },
    {
        match *self {
            AccountError::InvalidAmount(Operation::Deposit) => "Deposit amount must be positive",
            AccountError::InvalidAmount(Operation::Withdrawal) => "Withdrawal amount must be positive",
            AccountError::InsufficientFunds => "Insufficient funds",
        }
    }
}

/// A single account. The balance is an integer count of the currency's
/// smallest unit, so that every comparison and sum is exact.
#[derive(Debug, Clone)]
pub struct BankAccount {
    pub account_number: String,
    pub holder_name: String,
    balance: i64,
}

/// What an account holds, as mathematical values.
pub struct AccountView {
    pub number: Seq<char>,
    pub holder: Seq<char>,
    pub balance: int,
}

impl AccountView {
    /// The same account with `amount` added to its balance.
    pub open spec fn credited(self, amount: int) -> AccountView {
        AccountView { balance: self.balance + amount, ..self }
    }

    /// Whether `amount` can be added to the balance without leaving the
    /// range of `i64`.
    pub open spec fn can_receive(self, amount: int) -> bool {
        self.balance + amount <= i64::MAX
    }
}

impl View for BankAccount {
    type V = AccountView;

    closed spec fn view(&self) -> AccountView {
        AccountView {
            number: self.account_number@,
            holder: self.holder_name@,
            balance: self.balance as int,
        }
    }
}

impl BankAccount {
    /// Creates an account. Any initial balance is taken as it is, a negative
    /// one included.
    pub fn new(account_number: String, holder_name: String, initial_balance: i64) -> (r: Self)
        ensures
            r@ == (AccountView {
                number: account_number@,
                holder: holder_name@,
                balance: initial_balance as int,
            }),
    {
        BankAccount { account_number, holder_name, balance: initial_balance }
    }

    /// Adds `amount` to the balance and returns the new balance. An amount
    /// that is not strictly positive is refused and the account is left as
    /// it was.
    pub fn deposit(&mut self, amount: i64) -> (r: Result<i64, AccountError>)
        requires
            amount > 0 ==> old(self)@.can_receive(amount as int),
        ensures
            amount > 0 ==> final(self)@ == old(self)@.credited(amount as int)
                && r == Ok::<i64, AccountError>(final(self)@.balance as i64),
            amount <= 0 ==> final(self)@ == old(self)@
                && r == Err::<i64, AccountError>(AccountError::InvalidAmount(Operation::Deposit)),
    {
        if amount <= 0 {
            return Err(AccountError::InvalidAmount(Operation::Deposit));
        }
        self.balance = self.balance + amount;
        Ok(self.balance)
    }

    /// Takes `amount` from the balance and returns the new balance. The
    /// amount must be strictly positive and at most the balance; otherwise the
    /// withdrawal is refused, in that order of checks, and the account is left
    /// as it was.
    pub fn withdraw(&mut self, amount: i64) -> (r: Result<i64, AccountError>)
        ensures
            amount <= 0 ==> final(self)@ == old(self)@
                && r == Err::<i64, AccountError>(AccountError::InvalidAmount(Operation::Withdrawal)),
            0 < amount && amount > old(self)@.balance ==> final(self)@ == old(self)@
                && r == Err::<i64, AccountError>(AccountError::InsufficientFunds),
            0 < amount <= old(self)@.balance ==> final(self)@ == old(self)@.credited(-amount)
                && r == Ok::<i64, AccountError>(final(self)@.balance as i64),
            r is Ok ==> final(self)@.balance >= 0,
    {
        if amount <= 0 {
            return Err(AccountError::InvalidAmount(Operation::Withdrawal));
        }
        if amount > self.balance {
            return Err(AccountError::InsufficientFunds);
        }
        self.balance = self.balance - amount;
        Ok(self.balance)
    }

    /// Moves `amount` from this account to `to_account`: a withdrawal here,
    /// then a deposit there. A failed withdrawal is returned at once. Should
    /// the deposit fail, the amount is deposited back here and the deposit's
    /// error is returned. On failure both accounts are left as they were.
    pub fn transfer(&mut self, to_account: &mut BankAccount, amount: i64) -> (r: Result<
        (),
        AccountError,
    >)
        requires
            0 < amount <= old(self)@.balance ==> old(to_account)@.can_receive(amount as int),
        ensures
            amount <= 0 ==> r == Err::<(), AccountError>(
                AccountError::InvalidAmount(Operation::Withdrawal),
            ),
            0 < amount && amount > old(self)@.balance ==> r == Err::<(), AccountError>(
                AccountError::InsufficientFunds,
            ),
            0 < amount <= old(self)@.balance ==> r == Ok::<(), AccountError>(()),
            r is Ok ==> final(self)@ == old(self)@.credited(-amount)
                && final(to_account)@ == old(to_account)@.credited(amount as int)
                && final(self)@.balance + final(to_account)@.balance
                    == old(self)@.balance + old(to_account)@.balance,
            r is Err ==> final(self)@ == old(self)@ && final(to_account)@ == old(to_account)@,
    {
        self.withdraw(amount)?;
        match to_account.deposit(amount) {
            Ok(_) => Ok(()),
            Err(e) => {
                // Put the withdrawn amount back before reporting the failure.
                let _ = self.deposit(amount);
                Err(e)
            },
        }
    }

    /// The current balance.
    pub fn get_balance(&self) -> (r: i64)
        ensures
            r as int == self@.balance,
    {
        self.balance
    }
}

} // verus!
