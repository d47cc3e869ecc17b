use vstd::prelude::*;

use crate::account::StoreError;
use crate::catalog::{descriptor, op_params, OperationKind, ParamKind};

verus! {

/// One argument as the model supplied it.
#[derive(Debug)]
pub enum ArgValue {
    /// The arguments have no member of that name.
    Absent,
    Text(String),
    Integer(i64),
    /// A member of another JSON type, or a number that is not an `i64`.
    Other,
    /// The arguments are not valid JSON.
    Unreadable,
}

pub enum ArgView {
    Absent,
    Text(Seq<char>),
    Integer(int),
    Other,
    Unreadable,
}

impl View for ArgValue {
    type V = ArgView;

    open spec fn view(&self) -> ArgView {
        match self {
            ArgValue::Absent => ArgView::Absent,
            ArgValue::Text(s) => ArgView::Text(s@),
            ArgValue::Integer(i) => ArgView::Integer(*i as int),
            ArgValue::Other => ArgView::Other,
            ArgValue::Unreadable => ArgView::Unreadable,
        }
    }
}

/// The member `key` of the JSON object written in `text`, as serde_json reads it.
pub uninterp spec fn json_member(text: Seq<char>, key: Seq<char>) -> ArgView;

/// Relies on serde_json::from_str and serde_json::Value::get: parses `text` and takes its member
/// `key`; strings, numbers that fit `i64`, other members, no member and unparsable text are told
/// apart.
#[verifier::external_body]
pub(crate) fn read_member(text: &str, key: &str) -> (r: ArgValue)
    ensures
        r@ == json_member(text@, key@),
{
    match serde_json::from_str::<serde_json::Value>(text) {
        Err(_) => ArgValue::Unreadable,
        Ok(doc) => match doc.get(key) {
            None => ArgValue::Absent,
            Some(serde_json::Value::String(s)) => ArgValue::Text(s.clone()),
            Some(v) => match v.as_i64() {
                Some(i) => ArgValue::Integer(i),
                None => ArgValue::Other,
            },
        },
    }
}

/// What is wrong with one argument.
#[derive(Debug, Clone, Copy, PartialEq, Eq, Structural)]
pub enum Problem {
    Missing,
    TypeMismatch,
    Unreadable,
}

/// An argument that failed validation, with its name.
#[derive(Debug)]
pub struct FieldError {
    pub field: String,
    pub problem: Problem,
}

impl View for FieldError {
    type V = (Seq<char>, Problem);

    open spec fn view(&self) -> (Seq<char>, Problem) {
        (self.field@, self.problem)
    }
}

/// A validated request, with typed arguments.
#[derive(Debug)]
pub enum OperationRequest {
    Signup { username: String, password: String },
    Login { username: String, password: String },
    Transfer { to: String, amount: i32 },
    Logout,
}

pub enum RequestView {
    Signup { username: Seq<char>, password: Seq<char> },
    Login { username: Seq<char>, password: Seq<char> },
    Transfer { to: Seq<char>, amount: int },
    Logout,
}

impl View for OperationRequest {
    type V = RequestView;

    open spec fn view(&self) -> RequestView {
        match self {
            OperationRequest::Signup { username, password } => RequestView::Signup {
                username: username@,
                password: password@,
            },
            OperationRequest::Login { username, password } => RequestView::Login {
                username: username@,
                password: password@,
            },
            OperationRequest::Transfer { to, amount } => RequestView::Transfer {
                to: to@,
                amount: *amount as int,
            },
            OperationRequest::Logout => RequestView::Logout,
        }
    }
}

/// Why a requested operation was not carried out.
#[derive(Debug)]
pub enum DispatchError {
    /// No operation of that name is offered in the session's current login state.
    UnknownOperation,
    /// The operation needs a logged-in session and there is none.
    NotLoggedIn,
    /// Some arguments are missing or of the wrong shape; each is listed once, in order.
    InvalidArguments(Vec<FieldError>),
    /// The ledger refused the operation.
    Store(StoreError),
}

pub enum DispatchErrorView {
    UnknownOperation,
    NotLoggedIn,
    InvalidArguments(Seq<(Seq<char>, Problem)>),
    Store(StoreError),
}

pub open spec fn field_errors_view(s: Seq<FieldError>) -> Seq<(Seq<char>, Problem)> {
    s.map_values(|f: FieldError| f@)
}

impl View for DispatchError {
    type V = DispatchErrorView;

    open spec fn view(&self) -> DispatchErrorView {
        match self {
            DispatchError::UnknownOperation => DispatchErrorView::UnknownOperation,
            DispatchError::NotLoggedIn => DispatchErrorView::NotLoggedIn,
            DispatchError::InvalidArguments(v) => DispatchErrorView::InvalidArguments(
                field_errors_view(v@),
            ),
            DispatchError::Store(e) => DispatchErrorView::Store(*e),
        }
    }
}

/// What is wrong with `v` as an argument of shape `expected`, if anything. An integer must fit
/// an `i32`.
pub open spec fn problem_of(expected: ParamKind, v: ArgView) -> Option<Problem> {
    match v {
        ArgView::Absent => Some(Problem::Missing),
        ArgView::Unreadable => Some(Problem::Unreadable),
        ArgView::Text(_) => if expected == ParamKind::Text {
            None
        } else {
            Some(Problem::TypeMismatch)
        },
        ArgView::Integer(i) => if expected == ParamKind::Integer && i32::MIN <= i <= i32::MAX {
            None
        } else {
            Some(Problem::TypeMismatch)
        },
        ArgView::Other => Some(Problem::TypeMismatch),
    }
}

/// The offending arguments among the first `n`, in order.
pub open spec fn field_errors(
    params: Seq<(Seq<char>, ParamKind)>,
    values: Seq<ArgView>,
    n: nat,
) -> Seq<(Seq<char>, Problem)>
    decreases n,
{
    if n == 0 {
        seq![]
    } else {
        let before = field_errors(params, values, (n - 1) as nat);
        match problem_of(params[n - 1].1, values[n - 1]) {
            Some(p) => before.push((params[n - 1].0, p)),
            None => before,
        }
    }
}

pub open spec fn arg_views(values: Seq<ArgValue>) -> Seq<ArgView> {
    values.map_values(|v: ArgValue| v@)
}

pub open spec fn text_of(v: ArgView) -> Seq<char> {
    match v {
        ArgView::Text(s) => s,
        _ => seq![],
    }
}

pub open spec fn integer_of(v: ArgView) -> int {
    match v {
        ArgView::Integer(i) => i,
        _ => 0,
    }
}

/// The request that well-formed arguments `values` of `kind` make.
pub open spec fn request_of(kind: OperationKind, values: Seq<ArgView>) -> RequestView {
    match kind {
        OperationKind::Signup => RequestView::Signup {
            username: text_of(values[0]),
            password: text_of(values[1]),
        },
        OperationKind::Login => RequestView::Login {
            username: text_of(values[0]),
            password: text_of(values[1]),
        },
        OperationKind::Transfer => RequestView::Transfer {
            to: text_of(values[0]),
            amount: integer_of(values[1]),
        },
        OperationKind::Logout => RequestView::Logout,
    }
}

/// The outcome of validating `values` as the arguments of `kind`.
pub open spec fn validation(kind: OperationKind, values: Seq<ArgView>) -> Result<
    RequestView,
    Seq<(Seq<char>, Problem)>,
> {
    let errors = field_errors(op_params(kind), values, op_params(kind).len());
    if errors.len() == 0 {
        Ok(request_of(kind, values))
    } else {
        Err(errors)
    }
}

fn problem(expected: ParamKind, v: &ArgValue) -> (r: Option<Problem>)
    ensures
        r == problem_of(expected, v@),
{
    match v {
        ArgValue::Absent => Some(Problem::Missing),
        ArgValue::Unreadable => Some(Problem::Unreadable),
        ArgValue::Text(_) => match expected {
            ParamKind::Text => None,
            ParamKind::Integer => Some(Problem::TypeMismatch),
        },
        ArgValue::Integer(i) => match expected {
            ParamKind::Integer => if i32::MIN as i64 <= *i && *i <= i32::MAX as i64 {
                None
            } else {
                Some(Problem::TypeMismatch)
            },
            ParamKind::Text => Some(Problem::TypeMismatch),
        },
        ArgValue::Other => Some(Problem::TypeMismatch),
    }
}

fn text_value(v: &ArgValue) -> (r: String)
    requires
        v@ is Text,
    ensures
        r@ == text_of(v@),
{
    match v {
        ArgValue::Text(s) => s.clone(),
        _ => String::new(),
    }
}

fn integer_value(v: &ArgValue) -> (r: i32)
    requires
        v@ is Integer,
        i32::MIN <= integer_of(v@) <= i32::MAX,
    ensures
        r as int == integer_of(v@),
{
    match v {
        ArgValue::Integer(i) => *i as i32,
        _ => 0,
    }
}

/// Checks every argument of `kind` at once: the typed request, or every offending argument.
/// `values` holds the arguments in the order of the operation's descriptor.
pub fn validate(kind: OperationKind, values: &Vec<ArgValue>) -> (r: Result<
    OperationRequest,
    Vec<FieldError>,
>)
    requires
        values@.len() == op_params(kind).len(),
    ensures
        match validation(kind, arg_views(values@)) {
            Ok(q) => r matches Ok(req) && req@ == q,
            Err(es) => r matches Err(v) && field_errors_view(v@) == es,
        },
{
    let params = descriptor(kind).params;
    let ghost views = arg_views(values@);
    let mut errors: Vec<FieldError> = Vec::new();
    let mut i: usize = 0;
    while i < params.len()
        invariant
            params@.len() == op_params(kind).len(),
            values@.len() == op_params(kind).len(),
            views == arg_views(values@),
            forall|j: int|
                0 <= j < params@.len() ==> (#[trigger] params@[j]).name@ == op_params(kind)[j].0
                    && params@[j].kind == op_params(kind)[j].1,
            i <= params@.len(),
            field_errors_view(errors@) == field_errors(op_params(kind), views, i as nat),
        decreases params@.len() - i,
    {
        let found = problem(params[i].kind, &values[i]);
        match found {
            Some(p) => {
                errors.push(FieldError { field: params[i].name.clone(), problem: p });
                assert(field_errors_view(errors@) =~= field_errors(op_params(kind), views, (i + 1) as nat));
            },
            None => {},
        }
        i = i + 1;
    }
    if errors.len() > 0 {
        return Err(errors);
    }
    proof {
        assert(field_errors(op_params(kind), views, op_params(kind).len()).len() == 0);
    }
    match kind {
        OperationKind::Signup => {
            proof {
                lemma_no_error_at(kind, views, 0);
                lemma_no_error_at(kind, views, 1);
            }
            Ok(OperationRequest::Signup { username: text_value(&values[0]), password: text_value(&values[1]) })
        },
        OperationKind::Login => {
            proof {
                lemma_no_error_at(kind, views, 0);
                lemma_no_error_at(kind, views, 1);
            }
            Ok(OperationRequest::Login { username: text_value(&values[0]), password: text_value(&values[1]) })
        },
        OperationKind::Transfer => {
            proof {
                lemma_no_error_at(kind, views, 0);
                lemma_no_error_at(kind, views, 1);
            }
            Ok(OperationRequest::Transfer { to: text_value(&values[0]), amount: integer_value(&values[1]) })
        },
        OperationKind::Logout => Ok(OperationRequest::Logout),
    }
}

proof fn lemma_field_errors_grow(params: Seq<(Seq<char>, ParamKind)>, values: Seq<ArgView>, i: nat, n: nat)
    requires
        i <= n,
    ensures
        field_errors(params, values, i).len() <= field_errors(params, values, n).len(),
    decreases n - i,
{
    if i < n {
        lemma_field_errors_grow(params, values, i, (n - 1) as nat);
    }
}

proof fn lemma_no_error_at(kind: OperationKind, values: Seq<ArgView>, j: nat)
    requires
        j < op_params(kind).len(),
        field_errors(op_params(kind), values, op_params(kind).len()).len() == 0,
    ensures
        problem_of(op_params(kind)[j as int].1, values[j as int]) is None,
{
    let params = op_params(kind);
    lemma_field_errors_grow(params, values, j + 1, params.len());
}

} // verus!
