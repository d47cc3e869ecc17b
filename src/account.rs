use vstd::prelude::*;

verus! {

/// What a stored account is, as mathematical values.
pub struct UserView {
    pub username: Seq<char>,
    pub password: Seq<char>,
    pub balance: int,
}

/// The same account with another balance.
pub open spec fn with_balance(u: UserView, balance: int) -> UserView {
    UserView { username: u.username, password: u.password, balance }
}

/// An account of the ledger: a unique name, the credential it was created with, and its funds.
#[derive(Debug, PartialEq, Eq)]
pub struct User {
    pub username: String,
    pub password: String,
    pub balance: i32,
}

impl View for User {
    type V = UserView;

    open spec fn view(&self) -> UserView {
        UserView { username: self.username@, password: self.password@, balance: self.balance as int }
    }
}

/// The ways an operation on the ledger can fail.
#[derive(Debug, Clone, Copy, PartialEq, Eq, Structural)]
pub enum StoreError {
    /// An account with that username is already stored.
    AlreadyExists,
    /// No account with that username is stored.
    NotFound,
    /// The password does not match the stored one.
    WrongCredential,
    /// A transfer amount that is not positive, or a negative opening balance.
    InvalidAmount,
    /// A transfer whose sender and receiver are the same account.
    SelfTransfer,
    /// The sender holds less than the amount.
    InsufficientBalance,
    /// The receiver's balance would leave the range of `i32`.
    BalanceOverflow,
}

/// The text that describes each store error.
pub open spec fn store_error_text(e: StoreError) -> Seq<char> {
    match e {
        StoreError::AlreadyExists => "Username already exists"@,
        StoreError::NotFound => "Username doesn't exist"@,
        StoreError::WrongCredential => "Wrong password"@,
        StoreError::InvalidAmount => "Amount must be positive"@,
        StoreError::SelfTransfer => "Cannot transfer to oneself"@,
        StoreError::InsufficientBalance => "Insufficient balance"@,
        StoreError::BalanceOverflow => "Balance of the receiver would overflow"@,
    }
}

impl StoreError {
    /// A short description of the failure.
    pub fn message(&self) -> (r: String)
        ensures
            r@ == store_error_text(*self),
    {
        match self {
            StoreError::AlreadyExists => String::from_str("Username already exists"),
            StoreError::NotFound => String::from_str("Username doesn't exist"),
            StoreError::WrongCredential => String::from_str("Wrong password"),
            StoreError::InvalidAmount => String::from_str("Amount must be positive"),
            StoreError::SelfTransfer => String::from_str("Cannot transfer to oneself"),
            StoreError::InsufficientBalance => String::from_str("Insufficient balance"),
            StoreError::BalanceOverflow => String::from_str("Balance of the receiver would overflow"),
        }
    }
}

impl User {
    pub fn new(username: String, password: String, balance: i32) -> (r: User)
        ensures
            r.username == username,
            r.password == password,
            r.balance == balance,
    {
        User { username, password, balance }
    }

    /// A copy of the account, field by field.
    pub fn duplicate(&self) -> (r: User)
        ensures
            r@ == self@,
    {
        User { username: self.username.clone(), password: self.password.clone(), balance: self.balance }
    }

    /// Succeeds exactly when `password` is the stored credential.
    pub fn check_password(&self, password: &str) -> (r: Result<(), StoreError>)
        ensures
            r is Ok <==> self.password@ == password@,
            r is Err ==> r == Err::<(), StoreError>(StoreError::WrongCredential),
    {
        let given = password.to_string();
        if self.password == given {
            Ok(())
        } else {
            Err(StoreError::WrongCredential)
        }
    }
}

} // verus!
