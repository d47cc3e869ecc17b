use vstd::prelude::*;

use crate::account::{store_error_text, StoreError, User, UserView};
use crate::catalog::{
    catalog, describes, descriptor, kind_named, kind_of, needs_login, op_params,
    operations_for, OperationDescriptor, OperationKind, ParamKind,
};
use crate::dispatch::{
    arg_views, field_errors, read_member, json_member, validate, validation, ArgValue, ArgView, DispatchError,
    DispatchErrorView, FieldError, OperationRequest, Problem, RequestView, field_errors_view,
};
use crate::ledger::{authenticate_spec, create_spec, transfer_spec, Accounts, Ledger};
use crate::new_error;

verus! {

/// The decimal text of `n`, as Rust's `Display` writes it.
pub uninterp spec fn decimal_of(n: int) -> Seq<char>;

/// Relies on `i32`'s `ToString` (through `Display`): the decimal text of the number.
#[verifier::external_body]
fn decimal(n: i32) -> (r: String)
    ensures
        r@ == decimal_of(n as int),
{
    n.to_string()
}

/// One entry of the conversation.
#[derive(Debug)]
pub enum Turn {
    /// The fixed preamble and the session summary; always first, never stored in the history.
    System(String),
    /// What the user typed.
    User(String),
    /// Text that the model produced.
    Assistant(String),
    /// The outcome of an operation, fed back to the model.
    Function { name: String, content: String },
}

pub enum TurnView {
    System(Seq<char>),
    User(Seq<char>),
    Assistant(Seq<char>),
    Function(Seq<char>, Seq<char>),
}

impl View for Turn {
    type V = TurnView;

    open spec fn view(&self) -> TurnView {
        match self {
            Turn::System(s) => TurnView::System(s@),
            Turn::User(s) => TurnView::User(s@),
            Turn::Assistant(s) => TurnView::Assistant(s@),
            Turn::Function { name, content } => TurnView::Function(name@, content@),
        }
    }
}

impl Turn {
    /// A copy of the turn.
    pub fn duplicate(&self) -> (r: Turn)
        ensures
            r@ == self@,
    {
        match self {
            Turn::System(s) => Turn::System(s.clone()),
            Turn::User(s) => Turn::User(s.clone()),
            Turn::Assistant(s) => Turn::Assistant(s.clone()),
            Turn::Function { name, content } => Turn::Function { name: name.clone(), content: content.clone() },
        }
    }
}

pub open spec fn turn_views(s: Seq<Turn>) -> Seq<TurnView> {
    s.map_values(|t: Turn| t@)
}

/// An operation that the model asked for: its name and its arguments as JSON text.
#[derive(Debug)]
pub struct FunctionCall {
    pub name: String,
    pub arguments: String,
}

/// One reply of the model: text for the user, a request for an operation, or both.
#[derive(Debug)]
pub struct Reply {
    pub content: Option<String>,
    pub function_call: Option<FunctionCall>,
}

/// What the model is sent: the system turn and the history, and the operations it may call.
#[derive(Debug)]
pub struct ModelRequest {
    pub messages: Vec<Turn>,
    pub functions: Vec<OperationDescriptor>,
    /// How the model may call the functions; always "auto": the model chooses.
    pub function_call: String,
}

/// Where a session stands between calls.
#[derive(Debug, Clone, Copy, PartialEq, Eq, Structural)]
pub enum Phase {
    /// No chat is in progress.
    Idle,
    /// A chat is in progress and waits for the model's next reply.
    AwaitingModel,
}

/// What the caller does after a reply was handled.
#[derive(Debug, Clone, Copy, PartialEq, Eq, Structural)]
pub enum Next {
    /// Send the next request to the model.
    CallModel,
    /// The chat is over.
    Done,
    /// The model asked for more operations than one chat allows; the chat is over and failed.
    BudgetExceeded,
}

/// The result of handling one reply: text to show the user, if any, and what comes next.
#[derive(Debug)]
pub struct Step {
    pub emit: Option<String>,
    pub next: Next,
}

pub open spec fn system_init() -> Seq<char> {
    "You are the AI assistant of a payment system. You need to assist the user based on the functions you are provided. Note that you have access to only four functions: signup, login, transfer, and logout. Please focus on the functions you are provided.\n"@
}

/// The system turn for a session whose logged-in account is `user`.
pub open spec fn system_text(user: Option<UserView>) -> Seq<char> {
    match user {
        Some(u) => system_init() + "User info:\nusername: "@ + u.username + "\nbalance: "@
            + decimal_of(u.balance) + "\n."@,
        None => system_init() + "User hasn't logged in."@,
    }
}

pub open spec fn user_view(u: Option<User>) -> Option<UserView> {
    match u {
        Some(x) => Some(x@),
        None => None,
    }
}

/// What carrying out `req` does: the session's account afterwards, the ledger afterwards, and
/// the outcome. A failure changes neither.
pub open spec fn execute_spec(user: Option<UserView>, m: Accounts, start: int, req: RequestView) -> (
    Option<UserView>,
    Accounts,
    Result<(), DispatchErrorView>,
) {
    match req {
        RequestView::Signup { username, password } => {
            let fresh = UserView { username, password, balance: start };
            match create_spec(m, fresh) {
                Ok(n) => (Some(fresh), n, Ok(())),
                Err(e) => (user, m, Err(DispatchErrorView::Store(e))),
            }
        },
        RequestView::Login { username, password } => match authenticate_spec(m, username, password) {
            Ok(v) => (Some(v), m, Ok(())),
            Err(e) => (user, m, Err(DispatchErrorView::Store(e))),
        },
        RequestView::Logout => (None, m, Ok(())),
        RequestView::Transfer { to, amount } => match user {
            None => (user, m, Err(DispatchErrorView::NotLoggedIn)),
            Some(u) => match transfer_spec(m, u.username, to, amount) {
                Ok(n) => (Some(n[u.username]), n, Ok(())),
                Err(e) => (user, m, Err(DispatchErrorView::Store(e))),
            },
        },
    }
}

/// The arguments of `kind`, in descriptor order, read from the JSON text `text`.
pub open spec fn arguments_of(kind: OperationKind, text: Seq<char>) -> Seq<ArgView> {
    op_params(kind).map_values(|p: (Seq<char>, ParamKind)| json_member(text, p.0))
}

/// What dispatching the operation `name` with arguments `values` does: the operation must be
/// known and offered in the current login state, and its arguments valid, before it is carried
/// out. A name outside the visible catalog is an unknown operation, except that transfer and
/// logout without a login are refused as `NotLoggedIn`.
pub open spec fn dispatch_spec(
    user: Option<UserView>,
    m: Accounts,
    start: int,
    name: Seq<char>,
    values: Seq<ArgView>,
) -> (Option<UserView>, Accounts, Result<(), DispatchErrorView>) {
    match kind_named(name) {
        None => (user, m, Err(DispatchErrorView::UnknownOperation)),
        Some(k) => if needs_login(k) && user is None {
            (user, m, Err(DispatchErrorView::NotLoggedIn))
        } else if !needs_login(k) && user is Some {
            (user, m, Err(DispatchErrorView::UnknownOperation))
        } else {
            match validation(k, values) {
                Err(es) => (user, m, Err(DispatchErrorView::InvalidArguments(es))),
                Ok(q) => execute_spec(user, m, start, q),
            }
        },
    }
}

pub open spec fn success_text(k: OperationKind) -> Seq<char> {
    match k {
        OperationKind::Signup => "Signup successfully"@,
        OperationKind::Login => "Login successfully"@,
        OperationKind::Transfer => "Transfer successfully"@,
        OperationKind::Logout => "Logout successfully"@,
    }
}

pub open spec fn problem_text(f: (Seq<char>, Problem)) -> Seq<char> {
    match f.1 {
        Problem::Missing => "Missing "@ + f.0,
        Problem::TypeMismatch => "Wrong type for "@ + f.0,
        Problem::Unreadable => "Unreadable arguments for "@ + f.0,
    }
}

/// The offending arguments, separated by "; ".
pub open spec fn problems_text(es: Seq<(Seq<char>, Problem)>) -> Seq<char>
    decreases es.len(),
{
    if es.len() == 0 {
        seq![]
    } else if es.len() == 1 {
        problem_text(es[0])
    } else {
        problems_text(es.drop_last()) + "; "@ + problem_text(es.last())
    }
}

pub open spec fn error_text(e: DispatchErrorView) -> Seq<char> {
    match e {
        DispatchErrorView::UnknownOperation => "Unknown function call"@,
        DispatchErrorView::NotLoggedIn => "User not logged in"@,
        DispatchErrorView::InvalidArguments(es) => problems_text(es),
        DispatchErrorView::Store(s) => store_error_text(s),
    }
}

/// The text fed back to the model after dispatching `name`: a confirmation, or the error
/// marker "Error: " and a description.
pub open spec fn outcome_text(name: Seq<char>, res: Result<(), DispatchErrorView>) -> Seq<char> {
    match res {
        Ok(()) => match kind_named(name) {
            Some(k) => success_text(k),
            None => seq![],
        },
        Err(e) => "Error: "@ + error_text(e),
    }
}

/// Signing up under a name that is already taken fails with `AlreadyExists`, and the session and
/// every account stay as they were.
pub proof fn lemma_signup_taken_name(m: Accounts, start: int, username: Seq<char>, password: Seq<char>)
    requires
        m.contains_key(username),
        start >= 0,
    ensures
        dispatch_spec(
            None,
            m,
            start,
            "signup"@,
            seq![ArgView::Text(username), ArgView::Text(password)],
        ) == (None::<UserView>, m, Err::<(), DispatchErrorView>(DispatchErrorView::Store(StoreError::AlreadyExists))),
{
    let values = seq![ArgView::Text(username), ArgView::Text(password)];
    let params = op_params(OperationKind::Signup);
    assert(field_errors(params, values, 0).len() == 0);
    assert(field_errors(params, values, 1).len() == 0);
    assert(field_errors(params, values, 2).len() == 0);
    assert(validation(OperationKind::Signup, values) is Ok);
}

/// Logging in as a stored account fails with `WrongCredential` and changes nothing when the
/// password is wrong; with the right password it succeeds, the session holds that account, and
/// the catalog offered to the model becomes the logged-in one.
pub proof fn lemma_login_outcomes(m: Accounts, start: int, username: Seq<char>, password: Seq<char>)
    requires
        m.contains_key(username),
    ensures
        ({
            let t = dispatch_spec(
                None,
                m,
                start,
                "login"@,
                seq![ArgView::Text(username), ArgView::Text(password)],
            );
            &&& password != m[username].password ==> t == (
                None::<UserView>,
                m,
                Err::<(), DispatchErrorView>(DispatchErrorView::Store(StoreError::WrongCredential)),
            )
            &&& password == m[username].password ==> {
                &&& t == (Some(m[username]), m, Ok::<(), DispatchErrorView>(()))
                &&& catalog(t.0 is Some) == seq![OperationKind::Transfer, OperationKind::Logout]
            }
        }),
{
    reveal_strlit("login");
    reveal_strlit("signup");
    let values = seq![ArgView::Text(username), ArgView::Text(password)];
    assert("login"@ != "signup"@) by {
        assert("login"@.len() != "signup"@.len());
    }
    assert(kind_named("login"@) == Some(OperationKind::Login));
    let params = op_params(OperationKind::Login);
    assert(field_errors(params, values, 0).len() == 0);
    assert(field_errors(params, values, 1).len() == 0);
    assert(field_errors(params, values, 2).len() == 0);
    assert(validation(OperationKind::Login, values) is Ok);
}

/// A logged-in session that is asked for signup or login, which its catalog does not offer,
/// refuses it as an unknown operation, whatever the arguments, and changes nothing.
pub proof fn lemma_logged_in_hides_signup_and_login(
    u: UserView,
    m: Accounts,
    start: int,
    name: Seq<char>,
    values: Seq<ArgView>,
)
    requires
        name == "signup"@ || name == "login"@,
    ensures
        dispatch_spec(Some(u), m, start, name, values) == (
            Some(u),
            m,
            Err::<(), DispatchErrorView>(DispatchErrorView::UnknownOperation),
        ),
{
    reveal_strlit("login");
    reveal_strlit("signup");
    assert("login"@ != "signup"@) by {
        assert("login"@.len() != "signup"@.len());
    }
}

/// After a logout, a transfer is refused with `NotLoggedIn` whatever its arguments, and changes
/// nothing.
pub proof fn lemma_logout_blocks_transfer(u: UserView, m: Accounts, start: int, values: Seq<ArgView>)
    ensures
        ({
            let after = dispatch_spec(Some(u), m, start, "logout"@, seq![]);
            &&& after == (None::<UserView>, m, Ok::<(), DispatchErrorView>(()))
            &&& dispatch_spec(after.0, after.1, start, "transfer"@, values) == (
                None::<UserView>,
                m,
                Err::<(), DispatchErrorView>(DispatchErrorView::NotLoggedIn),
            )
        }),
{
    reveal_strlit("logout");
    reveal_strlit("transfer");
    reveal_strlit("signup");
    reveal_strlit("login");
    assert("logout"@ != "signup"@) by {
        assert("logout"@[0] != "signup"@[0]);
    }
    assert("logout"@ != "login"@) by {
        assert("logout"@.len() != "login"@.len());
    }
    assert("logout"@ != "transfer"@) by {
        assert("logout"@.len() != "transfer"@.len());
    }
    assert("transfer"@ != "signup"@) by {
        assert("transfer"@.len() != "signup"@.len());
    }
    assert("transfer"@ != "login"@) by {
        assert("transfer"@.len() != "login"@.len());
    }
    assert(kind_named("logout"@) == Some(OperationKind::Logout));
    assert(kind_named("transfer"@) == Some(OperationKind::Transfer));
    assert(validation(OperationKind::Logout, seq![]) is Ok);
}

fn problem_message(f: &FieldError) -> (r: String)
    ensures
        r@ == problem_text(f@),
{
    let head = match f.problem {
        Problem::Missing => String::from_str("Missing "),
        Problem::TypeMismatch => String::from_str("Wrong type for "),
        Problem::Unreadable => String::from_str("Unreadable arguments for "),
    };
    head.concat(f.field.as_str())
}

fn problems_message(es: &Vec<FieldError>) -> (r: String)
    ensures
        r@ == problems_text(field_errors_view(es@)),
{
    let ghost all = field_errors_view(es@);
    let mut out = String::new();
    let mut i: usize = 0;
    while i < es.len()
        invariant
            i <= es@.len(),
            all == field_errors_view(es@),
            out@ == problems_text(all.subrange(0, i as int)),
        decreases es@.len() - i,
    {
        if i > 0 {
            out.append("; ");
        }
        let piece = problem_message(&es[i]);
        out.append(piece.as_str());
        proof {
            let next = all.subrange(0, i + 1);
            assert(next.drop_last() =~= all.subrange(0, i as int));
            assert(next.last() == es@[i as int]@);
            if i == 0 {
                assert(out@ =~= problem_text(next[0]));
            }
        }
        i = i + 1;
    }
    assert(all.subrange(0, es@.len() as int) =~= all);
    out
}

fn error_message(e: &DispatchError) -> (r: String)
    ensures
        r@ == "Error: "@ + error_text(e@),
{
    let body = match e {
        DispatchError::UnknownOperation => String::from_str("Unknown function call"),
        DispatchError::NotLoggedIn => String::from_str("User not logged in"),
        DispatchError::InvalidArguments(es) => problems_message(es),
        DispatchError::Store(s) => s.message(),
    };
    String::from_str("Error: ").concat(body.as_str())
}

fn success_message(k: OperationKind) -> (r: String)
    ensures
        r@ == success_text(k),
{
    match k {
        OperationKind::Signup => String::from_str("Signup successfully"),
        OperationKind::Login => String::from_str("Login successfully"),
        OperationKind::Transfer => String::from_str("Transfer successfully"),
        OperationKind::Logout => String::from_str("Logout successfully"),
    }
}

pub open spec fn text_view(t: Option<String>) -> Option<Seq<char>> {
    match t {
        Some(s) => Some(s@),
        None => None,
    }
}

pub open spec fn result_view(r: Result<OperationKind, DispatchError>) -> Result<(), DispatchErrorView> {
    match r {
        Ok(_) => Ok(()),
        Err(e) => Err(e@),
    }
}

/// The arguments read for the operation `name` from the JSON text `text`; none for an unknown
/// name.
pub open spec fn call_arguments(name: Seq<char>, text: Seq<char>) -> Seq<ArgView> {
    match kind_named(name) {
        Some(k) => arguments_of(k, text),
        None => seq![],
    }
}

fn system_message(user: &Option<User>) -> (r: String)
    ensures
        r@ == system_text(user_view(*user)),
{
    let mut s = String::from_str(
        "You are the AI assistant of a payment system. You need to assist the user based on the functions you are provided. Note that you have access to only four functions: signup, login, transfer, and logout. Please focus on the functions you are provided.\n",
    );
    match user {
        Some(u) => {
            s.append("User info:\nusername: ");
            s.append(u.username.as_str());
            s.append("\nbalance: ");
            let d = decimal(u.balance);
            s.append(d.as_str());
            s.append("\n.");
        },
        None => {
            s.append("User hasn't logged in.");
        },
    }
    assert(s@ =~= system_text(user_view(*user)));
    s
}

fn requires_login(k: OperationKind) -> (r: bool)
    ensures
        r == needs_login(k),
{
    match k {
        OperationKind::Transfer | OperationKind::Logout => true,
        OperationKind::Signup | OperationKind::Login => false,
    }
}

fn read_arguments(k: OperationKind, text: &str) -> (r: Vec<ArgValue>)
    ensures
        arg_views(r@) == arguments_of(k, text@),
{
    let params = descriptor(k).params;
    let mut out: Vec<ArgValue> = Vec::new();
    let mut i: usize = 0;
    while i < params.len()
        invariant
            params@.len() == op_params(k).len(),
            forall|j: int|
                0 <= j < params@.len() ==> (#[trigger] params@[j]).name@ == op_params(k)[j].0,
            i <= params@.len(),
            out@.len() == i,
            arg_views(out@) =~= arguments_of(k, text@).subrange(0, i as int),
        decreases params@.len() - i,
    {
        let v = read_member(text, params[i].name.as_str());
        let ghost before = out@;
        out.push(v);
        proof {
            assert(out@ == before.push(v));
            assert(arg_views(out@)[i as int] == v@);
            assert(arguments_of(k, text@)[i as int] == json_member(text@, op_params(k)[i as int].0));
        }
        i = i + 1;
        assert(arg_views(out@) =~= arguments_of(k, text@).subrange(0, i as int));
    }
    assert(arg_views(out@) =~= arguments_of(k, text@));
    out
}

/// A session as mathematical values.
pub struct BotView {
    pub system: Seq<char>,
    pub history: Seq<TurnView>,
    pub user: Option<UserView>,
    pub phase: Phase,
    pub rounds: nat,
    pub max_rounds: nat,
}

/// One conversation: the logged-in account if any, the system turn that summarises it, the
/// history of turns, and where the chat loop stands.
pub struct Bot {
    system: String,
    messages: Vec<Turn>,
    usermaynull: Option<User>,
    phase: Phase,
    rounds: u32,
    max_rounds: u32,
}

impl View for Bot {
    type V = BotView;

    closed spec fn view(&self) -> BotView {
        BotView {
            system: self.system@,
            history: turn_views(self.messages@),
            user: user_view(self.usermaynull),
            phase: self.phase,
            rounds: self.rounds as nat,
            max_rounds: self.max_rounds as nat,
        }
    }
}

impl Bot {
    /// The system turn always describes the current login state, and no chat has performed
    /// more operations than it may.
    pub open spec fn wf(&self) -> bool {
        &&& self@.system == system_text(self@.user)
        &&& self@.rounds <= self@.max_rounds
    }

    /// A new session, not logged in and with an empty history; each chat may perform at most
    /// `max_rounds` operations.
    pub fn new(max_rounds: u32) -> (r: Bot)
        ensures
            r.wf(),
            r@.user is None,
            r@.history == Seq::<TurnView>::empty(),
            r@.phase == Phase::Idle,
            r@.rounds == 0,
            r@.max_rounds == max_rounds,
    {
        let none: Option<User> = None;
        let system = system_message(&none);
        let r = Bot { system, messages: Vec::new(), usermaynull: none, phase: Phase::Idle, rounds: 0, max_rounds };
        assert(r@.history =~= Seq::<TurnView>::empty());
        r
    }

    /// Whether an account is logged in.
    pub fn is_authenticated(&self) -> (r: bool)
        ensures
            r == self@.user is Some,
    {
        self.usermaynull.is_some()
    }

    /// The logged-in account, as the session last saw it.
    pub fn current_user(&self) -> (r: Option<User>)
        ensures
            user_view(r) == self@.user,
    {
        match &self.usermaynull {
            Some(u) => Some(u.duplicate()),
            None => None,
        }
    }

    /// Where the chat loop stands.
    pub fn phase(&self) -> (r: Phase)
        ensures
            r == self@.phase,
    {
        self.phase
    }

    /// The turns so far, without the system turn.
    pub fn history(&self) -> (r: Vec<Turn>)
        ensures
            turn_views(r@) == self@.history,
    {
        let mut out: Vec<Turn> = Vec::new();
        let mut i: usize = 0;
        while i < self.messages.len()
            invariant
                i <= self.messages@.len(),
                out@.len() == i,
                turn_views(out@) =~= turn_views(self.messages@).subrange(0, i as int),
            decreases self.messages@.len() - i,
        {
            let t = self.messages[i].duplicate();
            let ghost before = out@;
            out.push(t);
            proof {
                assert(out@ == before.push(t));
                assert(turn_views(out@)[i as int] == t@);
            }
            i = i + 1;
            assert(turn_views(out@) =~= turn_views(self.messages@).subrange(0, i as int));
        }
        assert(turn_views(out@) =~= turn_views(self.messages@));
        out
    }

    /// The system turn.
    pub fn system(&self) -> (r: String)
        ensures
            r@ == self@.system,
    {
        self.system.clone()
    }

    fn set_system(&mut self)
        ensures
            final(self)@.system == system_text(old(self)@.user),
            final(self)@.history == old(self)@.history,
            final(self)@.user == old(self)@.user,
            final(self)@.phase == old(self)@.phase,
            final(self)@.rounds == old(self)@.rounds,
            final(self)@.max_rounds == old(self)@.max_rounds,
    {
        self.system = system_message(&self.usermaynull);
    }

    /// Starts a chat with the user's text: appends it to the history and waits for the model.
    /// A chat that is still in progress is refused, and nothing changes.
    pub fn chat(&mut self, draft: &str) -> (r: Result<(), String>)
        requires
            old(self).wf(),
        ensures
            final(self).wf(),
            old(self)@.phase == Phase::Idle ==> r is Ok && final(self)@ == (BotView {
                history: old(self)@.history.push(TurnView::User(draft@)),
                phase: Phase::AwaitingModel,
                rounds: 0,
                ..old(self)@
            }),
            old(self)@.phase != Phase::Idle ==> r is Err && final(self)@ == old(self)@,
    {
        if self.phase != Phase::Idle {
            return new_error("A chat is already in progress");
        }
        self.messages.push(Turn::User(draft.to_string()));
        self.phase = Phase::AwaitingModel;
        self.rounds = 0;
        assert(self@.history =~= old(self)@.history.push(TurnView::User(draft@)));
        Ok(())
    }

    /// The next request to the model: the system turn, then the history, and the catalog of
    /// the current login state.
    pub fn build_model(&self) -> (r: ModelRequest)
        ensures
            r.function_call@ == "auto"@,
            turn_views(r.messages@) == seq![TurnView::System(self@.system)] + self@.history,
            r.functions@.len() == catalog(self@.user is Some).len(),
            forall|i: int|
                0 <= i < r.functions@.len() ==> describes(
                    #[trigger] r.functions@[i],
                    catalog(self@.user is Some)[i],
                ),
    {
        let mut messages: Vec<Turn> = Vec::new();
        messages.push(Turn::System(self.system.clone()));
        let mut i: usize = 0;
        while i < self.messages.len()
            invariant
                i <= self.messages@.len(),
                messages@.len() == i + 1,
                turn_views(messages@) =~= seq![TurnView::System(self.system@)] + turn_views(
                    self.messages@,
                ).subrange(0, i as int),
            decreases self.messages@.len() - i,
        {
            let t = self.messages[i].duplicate();
            let ghost before = messages@;
            messages.push(t);
            proof {
                assert(messages@ == before.push(t));
                assert(turn_views(messages@) =~= turn_views(before).push(t@));
                let views = turn_views(self.messages@);
                assert(views[i as int] == t@);
                assert(views.subrange(0, i + 1) =~= views.subrange(0, i as int).push(t@));
                assert(seq![TurnView::System(self.system@)] + views.subrange(0, i + 1) =~= (seq![
                    TurnView::System(self.system@)] + views.subrange(0, i as int)).push(t@));
            }
            i = i + 1;
            assert(turn_views(messages@) =~= seq![TurnView::System(self.system@)] + turn_views(
                self.messages@,
            ).subrange(0, i as int));
        }
        assert(turn_views(self.messages@).subrange(0, i as int) =~= turn_views(self.messages@));
        ModelRequest {
            messages,
            functions: operations_for(self.usermaynull.is_some()),
            function_call: String::from_str("auto"),
        }
    }

    fn execute(&mut self, db: &mut Ledger, req: OperationRequest) -> (r: Result<OperationKind, DispatchError>)
        requires
            old(self).wf(),
            old(db).wf(),
        ensures
            final(self).wf(),
            final(db).wf(),
            final(db).start() == old(db).start(),
            final(self)@.history == old(self)@.history,
            final(self)@.phase == old(self)@.phase,
            final(self)@.rounds == old(self)@.rounds,
            final(self)@.max_rounds == old(self)@.max_rounds,
            ({
                let t = execute_spec(old(self)@.user, old(db)@, old(db).start(), req@);
                &&& final(self)@.user == t.0
                &&& final(db)@ == t.1
                &&& result_view(r) == t.2
            }),
            r matches Ok(k) ==> match req@ {
                RequestView::Signup { .. } => k == OperationKind::Signup,
                RequestView::Login { .. } => k == OperationKind::Login,
                RequestView::Transfer { .. } => k == OperationKind::Transfer,
                RequestView::Logout => k == OperationKind::Logout,
            },
    {
        match req {
            OperationRequest::Signup { username, password } => {
                match User::signup(db, username.as_str(), password.as_str()) {
                    Ok(user) => {
                        self.usermaynull = Some(user);
                        self.set_system();
                        Ok(OperationKind::Signup)
                    },
                    Err(e) => Err(DispatchError::Store(e)),
                }
            },
            OperationRequest::Login { username, password } => {
                match User::login(db, username.as_str(), password.as_str()) {
                    Ok(user) => {
                        self.usermaynull = Some(user);
                        self.set_system();
                        Ok(OperationKind::Login)
                    },
                    Err(e) => Err(DispatchError::Store(e)),
                }
            },
            OperationRequest::Logout => {
                self.usermaynull = None;
                self.set_system();
                Ok(OperationKind::Logout)
            },
            OperationRequest::Transfer { to, amount } => {
                let mut user = match &self.usermaynull {
                    Some(u) => u.duplicate(),
                    None => {
                        return Err(DispatchError::NotLoggedIn);
                    },
                };
                match user.transfer(db, to.as_str(), amount) {
                    Ok(()) => {
                        self.usermaynull = Some(user);
                        self.set_system();
                        Ok(OperationKind::Transfer)
                    },
                    Err(e) => Err(DispatchError::Store(e)),
                }
            },
        }
    }

    fn run(&mut self, db: &mut Ledger, name: &str, values: &Vec<ArgValue>) -> (r: Result<OperationKind, DispatchError>)
        requires
            old(self).wf(),
            old(db).wf(),
            kind_named(name@) matches Some(k) ==> values@.len() == op_params(k).len(),
        ensures
            final(self).wf(),
            final(db).wf(),
            final(db).start() == old(db).start(),
            final(self)@.history == old(self)@.history,
            final(self)@.phase == old(self)@.phase,
            final(self)@.rounds == old(self)@.rounds,
            final(self)@.max_rounds == old(self)@.max_rounds,
            ({
                let t = dispatch_spec(old(self)@.user, old(db)@, old(db).start(), name@, arg_views(values@));
                &&& final(self)@.user == t.0
                &&& final(db)@ == t.1
                &&& result_view(r) == t.2
            }),
            r matches Ok(k) ==> kind_named(name@) == Some(k),
    {
        let k = match kind_of(name) {
            Some(k) => k,
            None => {
                return Err(DispatchError::UnknownOperation);
            },
        };
        let logged_in = self.usermaynull.is_some();
        if requires_login(k) && !logged_in {
            return Err(DispatchError::NotLoggedIn);
        }
        if !requires_login(k) && logged_in {
            return Err(DispatchError::UnknownOperation);
        }
        let req = match validate(k, values) {
            Ok(q) => q,
            Err(es) => {
                return Err(DispatchError::InvalidArguments(es));
            },
        };
        self.execute(db, req)
    }

    /// Carries out the operation `name` with the arguments `values`, given in the order of the
    /// operation's descriptor, and returns the text to feed back to the model: a confirmation,
    /// or "Error: " and what went wrong. Only the operations of the current login state are
    /// carried out; a failure changes neither the session nor the ledger.
    pub fn dispatch(&mut self, db: &mut Ledger, name: &str, values: &Vec<ArgValue>) -> (r: String)
        requires
            old(self).wf(),
            old(db).wf(),
            kind_named(name@) matches Some(k) ==> values@.len() == op_params(k).len(),
        ensures
            final(self).wf(),
            final(db).wf(),
            final(db).start() == old(db).start(),
            final(self)@.history == old(self)@.history,
            final(self)@.phase == old(self)@.phase,
            final(self)@.rounds == old(self)@.rounds,
            final(self)@.max_rounds == old(self)@.max_rounds,
            ({
                let t = dispatch_spec(old(self)@.user, old(db)@, old(db).start(), name@, arg_views(values@));
                &&& final(self)@.user == t.0
                &&& final(db)@ == t.1
                &&& r@ == outcome_text(name@, t.2)
            }),
    {
        match self.run(db, name, values) {
            Ok(k) => success_message(k),
            Err(e) => error_message(&e),
        }
    }

    /// Carries out the operation that the model asked for, its arguments read from their JSON
    /// text, and returns the text to feed back to the model.
    pub fn perform(&mut self, db: &mut Ledger, call: &FunctionCall) -> (r: String)
        requires
            old(self).wf(),
            old(db).wf(),
        ensures
            final(self).wf(),
            final(db).wf(),
            final(db).start() == old(db).start(),
            final(self)@.history == old(self)@.history,
            final(self)@.phase == old(self)@.phase,
            final(self)@.rounds == old(self)@.rounds,
            final(self)@.max_rounds == old(self)@.max_rounds,
            ({
                let t = dispatch_spec(
                    old(self)@.user,
                    old(db)@,
                    old(db).start(),
                    call.name@,
                    call_arguments(call.name@, call.arguments@),
                );
                &&& final(self)@.user == t.0
                &&& final(db)@ == t.1
                &&& r@ == outcome_text(call.name@, t.2)
            }),
    {
        let values = match kind_of(call.name.as_str()) {
            Some(k) => read_arguments(k, call.arguments.as_str()),
            None => Vec::new(),
        };
        proof {
            assert(values@.len() == arg_views(values@).len());
            if kind_named(call.name@) is None {
                assert(arg_views(values@) =~= seq![]);
            }
        }
        self.dispatch(db, call.name.as_str(), &values)
    }

    /// Handles one reply of the model while a chat is in progress. Its text, if any, becomes an
    /// assistant turn and is handed back to show the user. An operation request, if any, is
    /// carried out and its outcome becomes a function turn, and the model is to be called
    /// again; when the chat has already performed its allowed number of operations the request
    /// is not carried out and the chat ends as failed. A reply without an operation request
    /// ends the chat.
    pub fn handle_reply(&mut self, db: &mut Ledger, reply: Reply) -> (r: Step)
        requires
            old(self).wf(),
            old(db).wf(),
            old(self)@.phase == Phase::AwaitingModel,
        ensures
            final(self).wf(),
            final(db).wf(),
            final(db).start() == old(db).start(),
            final(self)@.max_rounds == old(self)@.max_rounds,
            text_view(r.emit) == text_view(reply.content),
            ({
                let shown = match reply.content {
                    Some(t) => old(self)@.history.push(TurnView::Assistant(t@)),
                    None => old(self)@.history,
                };
                match reply.function_call {
                    None => {
                        &&& r.next == Next::Done
                        &&& final(self)@ == (BotView { history: shown, phase: Phase::Idle, ..old(self)@ })
                        &&& final(db)@ == old(db)@
                    },
                    Some(c) => if old(self)@.rounds >= old(self)@.max_rounds {
                        &&& r.next == Next::BudgetExceeded
                        &&& final(self)@ == (BotView { history: shown, phase: Phase::Idle, ..old(self)@ })
                        &&& final(db)@ == old(db)@
                    } else {
                        let t = dispatch_spec(
                            old(self)@.user,
                            old(db)@,
                            old(db).start(),
                            c.name@,
                            call_arguments(c.name@, c.arguments@),
                        );
                        &&& r.next == Next::CallModel
                        &&& final(self)@.phase == Phase::AwaitingModel
                        &&& final(self)@.rounds == old(self)@.rounds + 1
                        &&& final(self)@.history == shown.push(
                            TurnView::Function(c.name@, outcome_text(c.name@, t.2)),
                        )
                        &&& final(self)@.user == t.0
                        &&& final(db)@ == t.1
                    },
                }
            }),
    {
        let emit = match &reply.content {
            Some(t) => {
                self.messages.push(Turn::Assistant(t.clone()));
                Some(t.clone())
            },
            None => None,
        };
        let ghost shown = self@.history;
        proof {
            assert(shown =~= match reply.content {
                Some(t) => old(self)@.history.push(TurnView::Assistant(t@)),
                None => old(self)@.history,
            });
        }
        match &reply.function_call {
            None => {
                self.phase = Phase::Idle;
                Step { emit, next: Next::Done }
            },
            Some(call) => {
                if self.rounds >= self.max_rounds {
                    self.phase = Phase::Idle;
                    return Step { emit, next: Next::BudgetExceeded };
                }
                let outcome = self.perform(db, call);
                self.messages.push(Turn::Function { name: call.name.clone(), content: outcome });
                self.rounds = self.rounds + 1;
                assert(self@.history =~= shown.push(TurnView::Function(call.name@, outcome@)));
                Step { emit, next: Next::CallModel }
            },
        }
    }

    /// The model call failed: the chat ends, and the history keeps what it had, the user's turn
    /// included.
    pub fn abort(&mut self)
        requires
            old(self).wf(),
        ensures
            final(self).wf(),
            final(self)@ == (BotView { phase: Phase::Idle, ..old(self)@ }),
    {
        self.phase = Phase::Idle;
    }
}

} // verus!
