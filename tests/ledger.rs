use trading_gpt::account::{StoreError, User};
use trading_gpt::ledger::Ledger;

fn two_accounts() -> Ledger {
    let mut db = Ledger::new(0);
    db.create(User::new("alice".to_string(), "pa".to_string(), 100)).unwrap();
    db.create(User::new("bob".to_string(), "pb".to_string(), 50)).unwrap();
    db
}

fn balance(db: &Ledger, name: &str) -> i32 {
    db.find(name).unwrap().balance
}

#[test]
fn sql_test_pool() {
    let db = Ledger::new(100);
    assert_eq!(db.count(), 0);
    assert_eq!(db.start_balance(), 100);
}

#[test]
fn sql_test_crud() {
    let mut db = Ledger::new(0);

    let user = User::new("test".to_string(), "test".to_string(), 100);
    user.insert_into_db(&mut db).unwrap();
    let user2 = User::retrieve_from_db(&db, "test").unwrap();
    assert_eq!(user, user2);

    let user_updated = User::new("test".to_string(), "test2".to_string(), 100);
    user_updated.update_to_db(&mut db).unwrap();
    let user3 = User::retrieve_from_db(&db, "test").unwrap();
    assert_eq!(user_updated, user3);

    user3.delete_from_db(&mut db).unwrap();
    let count = db.count();
    assert_eq!(count, 0);
}

#[test]
fn transfer_moves_funds() {
    let mut db = two_accounts();
    assert_eq!(db.transfer("alice", "bob", 30), Ok(()));
    assert_eq!(balance(&db, "alice"), 70);
    assert_eq!(balance(&db, "bob"), 80);
}

#[test]
fn transfer_keeps_the_sum() {
    let mut db = two_accounts();
    db.transfer("bob", "alice", 50).unwrap();
    assert_eq!(balance(&db, "alice") + balance(&db, "bob"), 150);
    assert_eq!(balance(&db, "bob"), 0);
}

#[test]
fn transfer_over_balance_fails_unchanged() {
    let mut db = two_accounts();
    assert_eq!(db.transfer("alice", "bob", 1000), Err(StoreError::InsufficientBalance));
    assert_eq!(balance(&db, "alice"), 100);
    assert_eq!(balance(&db, "bob"), 50);
    assert_eq!(db.transfer("alice", "bob", 101), Err(StoreError::InsufficientBalance));
    assert_eq!(db.transfer("alice", "bob", 100), Ok(()));
    assert_eq!(balance(&db, "alice"), 0);
}

#[test]
fn transfer_of_nonpositive_amount_fails_unchanged() {
    let mut db = two_accounts();
    assert_eq!(db.transfer("alice", "bob", 0), Err(StoreError::InvalidAmount));
    assert_eq!(db.transfer("alice", "bob", -5), Err(StoreError::InvalidAmount));
    assert_eq!(balance(&db, "alice"), 100);
    assert_eq!(balance(&db, "bob"), 50);
}

#[test]
fn transfer_to_oneself_or_unknown_fails() {
    let mut db = two_accounts();
    assert_eq!(db.transfer("alice", "alice", 10), Err(StoreError::SelfTransfer));
    assert_eq!(db.transfer("alice", "carol", 10), Err(StoreError::NotFound));
    assert_eq!(db.transfer("carol", "alice", 10), Err(StoreError::NotFound));
    assert_eq!(balance(&db, "alice"), 100);
}

#[test]
fn transfer_that_would_overflow_fails() {
    let mut db = two_accounts();
    db.create(User::new("rich".to_string(), "p".to_string(), i32::MAX)).unwrap();
    assert_eq!(db.transfer("alice", "rich", 1), Err(StoreError::BalanceOverflow));
    assert_eq!(balance(&db, "alice"), 100);
    assert_eq!(balance(&db, "rich"), i32::MAX);
}

#[test]
fn opposite_transfers_commute() {
    let mut first = two_accounts();
    first.transfer("alice", "bob", 40).unwrap();
    first.transfer("bob", "alice", 20).unwrap();
    let mut second = two_accounts();
    second.transfer("bob", "alice", 20).unwrap();
    second.transfer("alice", "bob", 40).unwrap();
    assert_eq!(balance(&first, "alice"), 80);
    assert_eq!(balance(&first, "bob"), 70);
    assert_eq!(balance(&second, "alice"), 80);
    assert_eq!(balance(&second, "bob"), 70);
}

#[test]
fn create_taken_name_fails_unchanged() {
    let mut db = two_accounts();
    let again = User::new("alice".to_string(), "other".to_string(), 5);
    assert_eq!(db.create(again), Err(StoreError::AlreadyExists));
    let stored = db.find("alice").unwrap();
    assert_eq!(stored.password, "pa");
    assert_eq!(stored.balance, 100);
    assert_eq!(db.count(), 2);
}

#[test]
fn create_with_negative_balance_fails() {
    let mut db = Ledger::new(0);
    let user = User::new("neg".to_string(), "p".to_string(), -1);
    assert_eq!(db.create(user), Err(StoreError::InvalidAmount));
    assert_eq!(db.count(), 0);
}

#[test]
fn authenticate_outcomes() {
    let db = two_accounts();
    assert_eq!(db.authenticate("nobody", "pa"), Err(StoreError::NotFound));
    assert_eq!(db.authenticate("alice", "wrong"), Err(StoreError::WrongCredential));
    let alice = db.authenticate("alice", "pa").unwrap();
    assert_eq!(alice.balance, 100);
}

#[test]
fn update_and_remove_unknown_fail() {
    let mut db = two_accounts();
    let ghost = User::new("ghost".to_string(), "p".to_string(), 1);
    assert_eq!(db.update(&ghost), Err(StoreError::NotFound));
    assert_eq!(db.remove("ghost"), Err(StoreError::NotFound));
    let negative = User::new("bob".to_string(), "pb".to_string(), -3);
    assert_eq!(db.update(&negative), Err(StoreError::InvalidAmount));
    assert_eq!(balance(&db, "bob"), 50);
}

#[test]
fn signup_uses_the_opening_balance() {
    let mut db = Ledger::new(250);
    let carol = User::signup(&mut db, "carol", "p").unwrap();
    assert_eq!(carol.balance, 250);
    assert_eq!(User::signup(&mut db, "carol", "q").unwrap_err(), StoreError::AlreadyExists);
    assert_eq!(User::login(&db, "carol", "q").unwrap_err(), StoreError::WrongCredential);
    assert_eq!(User::login(&db, "carol", "p").unwrap(), carol);
    assert_eq!(carol.logout(), Ok(()));
}

#[test]
fn user_transfer_refreshes_the_sender() {
    let mut db = two_accounts();
    let mut alice = User::retrieve_from_db(&db, "alice").unwrap();
    alice.transfer(&mut db, "bob", 25).unwrap();
    assert_eq!(alice.balance, 75);
    assert_eq!(alice.transfer_to_other(&mut db, "bob", 500), Err(StoreError::InsufficientBalance));
    assert_eq!(alice.balance, 75);
    assert_eq!(balance(&db, "bob"), 75);
}

#[test]
fn password_check() {
    let user = User::new("u".to_string(), "secret".to_string(), 0);
    assert_eq!(user.check_password("secret"), Ok(()));
    assert_eq!(user.check_password("Secret"), Err(StoreError::WrongCredential));
}

#[test]
fn store_error_messages() {
    assert_eq!(StoreError::InsufficientBalance.message(), "Insufficient balance");
    assert_eq!(StoreError::AlreadyExists.message(), "Username already exists");
    assert_eq!(StoreError::WrongCredential.message(), "Wrong password");
}
