use vstd::prelude::*;
use vstd::string::StringExecFns;

verus! {

/// The identifier of the operator who is logged in.
#[derive(Copy, Clone, Debug, PartialEq, Eq, Structural)]
pub struct UserId(pub u128);

/// What to do with a request to a page for operators only.
#[derive(Debug)]
pub enum AccessDecision {
    /// Let the request through, with the operator's identifier attached.
    Proceed(UserId),
    /// Send the visitor to the given page instead.
    SeeOther(String),
}

/// Decides on a request to a page for operators only from what its session
/// holds: through for an operator who is logged in, to the login page for
/// anyone else.
pub fn reject_anonymous_users(session_user: Option<u128>) -> (r: AccessDecision)
    ensures
        match (session_user, r) {
            (Some(id), AccessDecision::Proceed(user_id)) => user_id.0 == id,
            (None, AccessDecision::SeeOther(location)) => location@ == "/login"@,
            _ => false,
        },
{
    match session_user {
        Some(user_id) => AccessDecision::Proceed(UserId(user_id)),
        None => AccessDecision::SeeOther(String::from_str("/login")),
    }
}

} // verus!
