use trading_gpt::account::User;
use trading_gpt::bot::{Bot, FunctionCall, Next, Phase, Reply, Turn};
use trading_gpt::catalog::{describe, kind_of, operations_for, OperationKind, ParamKind};
use trading_gpt::dispatch::{validate, ArgValue, DispatchError, OperationRequest, Problem};
use trading_gpt::ledger::Ledger;
use trading_gpt::new_error;

fn call(name: &str, arguments: &str) -> FunctionCall {
    FunctionCall { name: name.to_string(), arguments: arguments.to_string() }
}

fn ledger_with_alice_and_bob() -> Ledger {
    let mut db = Ledger::new(0);
    db.create(User::new("alice".to_string(), "pa".to_string(), 100)).unwrap();
    db.create(User::new("bob".to_string(), "pb".to_string(), 50)).unwrap();
    db
}

fn logged_in_alice(db: &mut Ledger) -> Bot {
    let mut bot = Bot::new(5);
    let out = bot.perform(db, &call("login", r#"{"username": "alice", "password": "pa"}"#));
    assert_eq!(out, "Login successfully");
    bot
}

fn names(authenticated: bool) -> Vec<String> {
    operations_for(authenticated).into_iter().map(|d| d.name).collect()
}

#[test]
fn scenario_transfer_alice_to_bob() {
    let mut db = ledger_with_alice_and_bob();
    let mut bot = logged_in_alice(&mut db);
    let out = bot.perform(&mut db, &call("transfer", r#"{"to": "bob", "amount": 30}"#));
    assert_eq!(out, "Transfer successfully");
    assert_eq!(db.find("alice").unwrap().balance, 70);
    assert_eq!(db.find("bob").unwrap().balance, 80);
    assert_eq!(bot.current_user().unwrap().balance, 70);
    assert!(bot.system().ends_with("User info:\nusername: alice\nbalance: 70\n."));
}

#[test]
fn scenario_transfer_over_balance() {
    let mut db = ledger_with_alice_and_bob();
    let mut bot = logged_in_alice(&mut db);
    let out = bot.perform(&mut db, &call("transfer", r#"{"to": "bob", "amount": 1000}"#));
    assert_eq!(out, "Error: Insufficient balance");
    assert_eq!(db.find("alice").unwrap().balance, 100);
    assert_eq!(db.find("bob").unwrap().balance, 50);
}

#[test]
fn scenario_chat_signup_then_text() {
    let mut db = Ledger::new(100);
    let mut bot = Bot::new(5);
    bot.chat("I am carol, password p, please sign me up").unwrap();
    assert_eq!(bot.phase(), Phase::AwaitingModel);

    let first = Reply {
        content: None,
        function_call: Some(call("signup", r#"{"username": "carol", "password": "p"}"#)),
    };
    let step = bot.handle_reply(&mut db, first);
    assert!(step.emit.is_none());
    assert_eq!(step.next, Next::CallModel);

    let second = Reply { content: Some("Welcome carol".to_string()), function_call: None };
    let step = bot.handle_reply(&mut db, second);
    assert_eq!(step.emit, Some("Welcome carol".to_string()));
    assert_eq!(step.next, Next::Done);

    assert_eq!(bot.phase(), Phase::Idle);
    assert_eq!(db.find("carol").unwrap().balance, 100);
    let history = bot.history();
    assert_eq!(history.len(), 3);
    assert!(matches!(&history[1], Turn::Function { name, content } if name == "signup" && content == "Signup successfully"));
    assert!(matches!(&history[2], Turn::Assistant(t) if t == "Welcome carol"));
}

#[test]
fn signup_taken_name_leaves_account() {
    let mut db = ledger_with_alice_and_bob();
    let mut bot = Bot::new(5);
    let out = bot.perform(&mut db, &call("signup", r#"{"username": "alice", "password": "new"}"#));
    assert_eq!(out, "Error: Username already exists");
    assert!(!bot.is_authenticated());
    let alice = db.find("alice").unwrap();
    assert_eq!(alice.password, "pa");
    assert_eq!(alice.balance, 100);
}

#[test]
fn login_wrong_then_right_password() {
    let mut db = ledger_with_alice_and_bob();
    let mut bot = Bot::new(5);
    let out = bot.perform(&mut db, &call("login", r#"{"username": "alice", "password": "nope"}"#));
    assert_eq!(out, "Error: Wrong password");
    assert!(!bot.is_authenticated());
    assert_eq!(bot.build_model().functions.len(), 2);
    assert_eq!(bot.build_model().functions[0].kind, OperationKind::Login);

    let out = bot.perform(&mut db, &call("login", r#"{"username": "alice", "password": "pa"}"#));
    assert_eq!(out, "Login successfully");
    assert!(bot.is_authenticated());
    let request = bot.build_model();
    assert_eq!(request.functions[0].name, "transfer");
    assert_eq!(request.functions[1].name, "logout");
}

#[test]
fn login_unknown_user() {
    let mut db = ledger_with_alice_and_bob();
    let mut bot = Bot::new(5);
    let out = bot.perform(&mut db, &call("login", r#"{"username": "zed", "password": "pa"}"#));
    assert_eq!(out, "Error: Username doesn't exist");
}

#[test]
fn logout_blocks_transfer() {
    let mut db = ledger_with_alice_and_bob();
    let mut bot = logged_in_alice(&mut db);
    assert_eq!(bot.perform(&mut db, &call("logout", "{}")), "Logout successfully");
    assert!(!bot.is_authenticated());
    let out = bot.perform(&mut db, &call("transfer", r#"{"to": "bob", "amount": 10}"#));
    assert_eq!(out, "Error: User not logged in");
    assert_eq!(db.find("alice").unwrap().balance, 100);
    assert!(bot.system().ends_with("User hasn't logged in."));
}

#[test]
fn logged_in_session_refuses_signup() {
    let mut db = ledger_with_alice_and_bob();
    let mut bot = logged_in_alice(&mut db);
    let out = bot.perform(&mut db, &call("signup", r#"{"username": "dan", "password": "p"}"#));
    assert_eq!(out, "Error: Unknown function call");
    assert!(db.find("dan").is_err());
}

#[test]
fn logged_in_session_refuses_login() {
    let mut db = ledger_with_alice_and_bob();
    let mut bot = logged_in_alice(&mut db);
    let out = bot.perform(&mut db, &call("login", r#"{"username": "bob", "password": "pb"}"#));
    assert_eq!(out, "Error: Unknown function call");
    assert_eq!(bot.current_user().unwrap().username, "alice");
}

#[test]
fn model_request_lets_the_model_choose() {
    let bot = Bot::new(3);
    assert_eq!(bot.build_model().function_call, "auto");
}

#[test]
fn unknown_operation_is_reported() {
    let mut db = ledger_with_alice_and_bob();
    let mut bot = Bot::new(5);
    let out = bot.perform(&mut db, &call("delete_everything", "{}"));
    assert_eq!(out, "Error: Unknown function call");
}

#[test]
fn bad_arguments_are_listed() {
    let mut db = ledger_with_alice_and_bob();
    let mut bot = logged_in_alice(&mut db);
    let out = bot.perform(&mut db, &call("transfer", r#"{"amount": "ten"}"#));
    assert_eq!(out, "Error: Missing to; Wrong type for amount");
    let out = bot.perform(&mut db, &call("transfer", r#"{"to": "bob", "amount": 5000000000}"#));
    assert_eq!(out, "Error: Wrong type for amount");
    let out = bot.perform(&mut db, &call("transfer", "not json"));
    assert_eq!(out, "Error: Unreadable arguments for to; Unreadable arguments for amount");
    let out = bot.perform(&mut db, &call("transfer", r#"{"to": "bob", "amount": 0}"#));
    assert_eq!(out, "Error: Amount must be positive");
    assert_eq!(db.find("bob").unwrap().balance, 50);
}

#[test]
fn dispatch_with_values() {
    let mut db = ledger_with_alice_and_bob();
    let mut bot = Bot::new(5);
    let values = vec![ArgValue::Text("bob".to_string()), ArgValue::Text("pb".to_string())];
    assert_eq!(bot.dispatch(&mut db, "login", &values), "Login successfully");
    assert_eq!(bot.current_user().unwrap().username, "bob");
    let values = vec![ArgValue::Text("alice".to_string()), ArgValue::Integer(20)];
    assert_eq!(bot.dispatch(&mut db, "transfer", &values), "Transfer successfully");
    assert_eq!(db.find("alice").unwrap().balance, 120);
}

#[test]
fn loop_budget_is_enforced() {
    let mut db = ledger_with_alice_and_bob();
    let mut bot = Bot::new(1);
    bot.chat("log me in").unwrap();
    let ask = || Reply {
        content: None,
        function_call: Some(call("login", r#"{"username": "alice", "password": "pa"}"#)),
    };
    assert_eq!(bot.handle_reply(&mut db, ask()).next, Next::CallModel);
    let step = bot.handle_reply(&mut db, ask());
    assert_eq!(step.next, Next::BudgetExceeded);
    assert_eq!(bot.phase(), Phase::Idle);
    assert_eq!(bot.history().len(), 2);
    bot.chat("again").unwrap();
    assert_eq!(bot.phase(), Phase::AwaitingModel);
}

#[test]
fn second_chat_in_flight_is_refused() {
    let mut bot = Bot::new(3);
    bot.chat("hello").unwrap();
    assert_eq!(bot.chat("hello again"), Err("A chat is already in progress".to_string()));
    assert_eq!(bot.history().len(), 1);
}

#[test]
fn model_failure_keeps_user_turn() {
    let mut bot = Bot::new(3);
    bot.chat("hello").unwrap();
    bot.abort();
    assert_eq!(bot.phase(), Phase::Idle);
    let history = bot.history();
    assert_eq!(history.len(), 1);
    assert!(matches!(&history[0], Turn::User(t) if t == "hello"));
}

#[test]
fn text_and_call_in_one_reply() {
    let mut db = ledger_with_alice_and_bob();
    let mut bot = Bot::new(3);
    bot.chat("hi").unwrap();
    let reply = Reply {
        content: Some("Logging you in".to_string()),
        function_call: Some(call("login", r#"{"username": "bob", "password": "pb"}"#)),
    };
    let step = bot.handle_reply(&mut db, reply);
    assert_eq!(step.emit, Some("Logging you in".to_string()));
    assert_eq!(step.next, Next::CallModel);
    assert_eq!(bot.history().len(), 3);
    assert!(bot.is_authenticated());
}

#[test]
fn request_starts_with_system_turn() {
    let mut bot = Bot::new(3);
    bot.chat("hi").unwrap();
    let request = bot.build_model();
    assert_eq!(request.messages.len(), 2);
    assert!(matches!(&request.messages[0], Turn::System(s) if s.starts_with("You are the AI assistant of a payment system.")));
    assert!(matches!(&request.messages[1], Turn::User(s) if s == "hi"));
}

#[test]
fn system_turn_shows_balance() {
    let mut db = ledger_with_alice_and_bob();
    let bot = logged_in_alice(&mut db);
    assert!(bot.system().ends_with("User info:\nusername: alice\nbalance: 100\n."));
}

#[test]
fn catalog_contents() {
    assert_eq!(names(false), vec!["login".to_string(), "signup".to_string()]);
    assert_eq!(names(true), vec!["transfer".to_string(), "logout".to_string()]);
    let transfer = describe("transfer").unwrap();
    assert_eq!(transfer.params.len(), 2);
    assert_eq!(transfer.params[1].name, "amount");
    assert_eq!(transfer.params[1].kind, ParamKind::Integer);
    assert!(matches!(describe("fly"), Err(DispatchError::UnknownOperation)));
    assert_eq!(kind_of("logout"), Some(OperationKind::Logout));
    assert_eq!(kind_of("Logout"), None);
}

#[test]
fn validate_lists_every_problem() {
    let values = vec![ArgValue::Absent, ArgValue::Other];
    match validate(OperationKind::Signup, &values) {
        Err(errors) => {
            assert_eq!(errors.len(), 2);
            assert_eq!(errors[0].field, "username");
            assert_eq!(errors[0].problem, Problem::Missing);
            assert_eq!(errors[1].field, "password");
            assert_eq!(errors[1].problem, Problem::TypeMismatch);
        }
        Ok(_) => panic!("expected errors"),
    }
    let values = vec![ArgValue::Text("bob".to_string()), ArgValue::Integer(7)];
    match validate(OperationKind::Transfer, &values) {
        Ok(OperationRequest::Transfer { to, amount }) => {
            assert_eq!(to, "bob");
            assert_eq!(amount, 7);
        }
        _ => panic!("expected a transfer"),
    }
}

#[test]
fn new_error_carries_message() {
    let r: Result<u8, String> = new_error("boom");
    assert_eq!(r, Err("boom".to_string()));
}
