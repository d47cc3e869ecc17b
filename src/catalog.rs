use vstd::prelude::*;

use crate::dispatch::DispatchError;

verus! {

/// The operations that the model may ask for.
#[derive(Debug, Clone, Copy, PartialEq, Eq, Structural)]
pub enum OperationKind {
    Signup,
    Login,
    Transfer,
    Logout,
}

/// The shape of one argument of an operation.
#[derive(Debug, Clone, Copy, PartialEq, Eq, Structural)]
pub enum ParamKind {
    Text,
    Integer,
}

/// One named argument of an operation; every argument is required.
#[derive(Debug)]
pub struct Param {
    pub name: String,
    pub kind: ParamKind,
}

/// What the model is shown of an operation: its name, what it does, and its arguments.
#[derive(Debug)]
pub struct OperationDescriptor {
    pub kind: OperationKind,
    pub name: String,
    pub description: String,
    pub params: Vec<Param>,
}

pub open spec fn op_name(k: OperationKind) -> Seq<char> {
    match k {
        OperationKind::Signup => "signup"@,
        OperationKind::Login => "login"@,
        OperationKind::Transfer => "transfer"@,
        OperationKind::Logout => "logout"@,
    }
}

pub open spec fn op_description(k: OperationKind) -> Seq<char> {
    match k {
        OperationKind::Signup => "Sign up a new user. User should provide username and password. You CANNOT sign up if the user hasn't provided username and password"@,
        OperationKind::Login => "Let the user login. User should provide username and password"@,
        OperationKind::Transfer => "Transfer money to another user. User should provide the receiver and the amount to transfer. Note the amount must between 1 and one's balance"@,
        OperationKind::Logout => "Let the user logout"@,
    }
}

/// The arguments of each operation, in order.
pub open spec fn op_params(k: OperationKind) -> Seq<(Seq<char>, ParamKind)> {
    match k {
        OperationKind::Signup => seq![("username"@, ParamKind::Text), ("password"@, ParamKind::Text)],
        OperationKind::Login => seq![("username"@, ParamKind::Text), ("password"@, ParamKind::Text)],
        OperationKind::Transfer => seq![("to"@, ParamKind::Text), ("amount"@, ParamKind::Integer)],
        OperationKind::Logout => seq![],
    }
}

/// The operations that only a logged-in session may perform.
pub open spec fn needs_login(k: OperationKind) -> bool {
    k == OperationKind::Transfer || k == OperationKind::Logout
}

/// The catalog offered to the model: exactly the operations of the current login state.
pub open spec fn catalog(authenticated: bool) -> Seq<OperationKind> {
    if authenticated {
        seq![OperationKind::Transfer, OperationKind::Logout]
    } else {
        seq![OperationKind::Login, OperationKind::Signup]
    }
}

/// The operation called `name`, if any.
pub open spec fn kind_named(name: Seq<char>) -> Option<OperationKind> {
    if name == "signup"@ {
        Some(OperationKind::Signup)
    } else if name == "login"@ {
        Some(OperationKind::Login)
    } else if name == "transfer"@ {
        Some(OperationKind::Transfer)
    } else if name == "logout"@ {
        Some(OperationKind::Logout)
    } else {
        None
    }
}

/// `d` is the descriptor of `k`.
pub open spec fn describes(d: OperationDescriptor, k: OperationKind) -> bool {
    &&& d.kind == k
    &&& d.name@ == op_name(k)
    &&& d.description@ == op_description(k)
    &&& d.params@.len() == op_params(k).len()
    &&& forall|i: int|
        0 <= i < d.params@.len() ==> (#[trigger] d.params@[i]).name@ == op_params(k)[i].0
            && d.params@[i].kind == op_params(k)[i].1
}

fn param(name: &str, kind: ParamKind) -> (r: Param)
    ensures
        r.name@ == name@,
        r.kind == kind,
{
    Param { name: name.to_string(), kind }
}

/// The descriptor of `kind`.
pub fn descriptor(kind: OperationKind) -> (r: OperationDescriptor)
    ensures
        describes(r, kind),
{
    match kind {
        OperationKind::Signup => OperationDescriptor {
            kind,
            name: String::from_str("signup"),
            description: String::from_str(
                "Sign up a new user. User should provide username and password. You CANNOT sign up if the user hasn't provided username and password",
            ),
            params: vec![param("username", ParamKind::Text), param("password", ParamKind::Text)],
        },
        OperationKind::Login => OperationDescriptor {
            kind,
            name: String::from_str("login"),
            description: String::from_str(
                "Let the user login. User should provide username and password",
            ),
            params: vec![param("username", ParamKind::Text), param("password", ParamKind::Text)],
        },
        OperationKind::Transfer => OperationDescriptor {
            kind,
            name: String::from_str("transfer"),
            description: String::from_str(
                "Transfer money to another user. User should provide the receiver and the amount to transfer. Note the amount must between 1 and one's balance",
            ),
            params: vec![param("to", ParamKind::Text), param("amount", ParamKind::Integer)],
        },
        OperationKind::Logout => OperationDescriptor {
            kind,
            name: String::from_str("logout"),
            description: String::from_str("Let the user logout"),
            params: Vec::new(),
        },
    }
}

/// The descriptors offered to the model in the given login state, in catalog order.
pub fn operations_for(is_authenticated: bool) -> (r: Vec<OperationDescriptor>)
    ensures
        r@.len() == catalog(is_authenticated).len(),
        forall|i: int| 0 <= i < r@.len() ==> describes(#[trigger] r@[i], catalog(is_authenticated)[i]),
{
    if is_authenticated {
        vec![descriptor(OperationKind::Transfer), descriptor(OperationKind::Logout)]
    } else {
        vec![descriptor(OperationKind::Login), descriptor(OperationKind::Signup)]
    }
}

/// The operation called `name`, if there is one.
pub fn kind_of(name: &str) -> (r: Option<OperationKind>)
    ensures
        r == kind_named(name@),
{
    let given = name.to_string();
    if given == String::from_str("signup") {
        Some(OperationKind::Signup)
    } else if given == String::from_str("login") {
        Some(OperationKind::Login)
    } else if given == String::from_str("transfer") {
        Some(OperationKind::Transfer)
    } else if given == String::from_str("logout") {
        Some(OperationKind::Logout)
    } else {
        None
    }
}

/// The descriptor of the operation called `name`, in either catalog.
pub fn describe(name: &str) -> (r: Result<OperationDescriptor, DispatchError>)
    ensures
        kind_named(name@) matches Some(k) ==> (r matches Ok(d) && describes(d, k)),
        kind_named(name@) is None ==> r matches Err(DispatchError::UnknownOperation),
{
    match kind_of(name) {
        Some(k) => Ok(descriptor(k)),
        None => Err(DispatchError::UnknownOperation),
    }
}

} // verus!
