use crate::search::{first_where, first_where_is, first_where_nowhere};
use crate::text::same_text;
use vstd::prelude::*;
use vstd::string::StringExecFns;

verus! {

/// A username and a password as an operator presented them.
#[derive(Debug)]
pub struct Credentials {
    pub username: String,
    pub password: String,
}

/// An operator account as the store keeps it.
#[derive(Debug)]
pub struct User {
    pub user_id: u128,
    pub username: String,
    pub password: String,
}

/// Why an `Authorization` header yields no credentials.
#[derive(Debug, Clone, Copy, PartialEq, Eq, Structural)]
pub enum MalformedCredentials {
    /// The request has no such header.
    MissingHeader,
    /// The value of the header is no text.
    HeaderNotText,
    /// The value does not begin with the scheme `Basic`.
    NotBasicScheme,
    /// What follows the scheme is no base64 encoding.
    InvalidBase64,
    /// What was encoded is no UTF-8.
    InvalidUtf8,
    /// Nothing stands where the username belongs.
    MissingUsername,
    /// There is a username, but no colon behind it and so no password.
    MissingPassword,
}

/// Why a request is not let through.
#[derive(Debug)]
pub enum AuthError {
    /// The request carried no readable credentials; no account was looked up.
    MalformedCredentials(MalformedCredentials),
    /// No account has this username and password. Which of the two was wrong
    /// is not said.
    InvalidCredentials(String),
    /// The accounts could not be read.
    UnexpectedError(String),
}

impl MalformedCredentials {
    /// What is told about this failure.
    pub open spec fn message_text(self) -> Seq<char> {
        match self {
            MalformedCredentials::MissingHeader => "The 'Authorization' header was missing"@,
            MalformedCredentials::HeaderNotText =>
                "The 'Authorization' header was not a valid UTF8 string."@,
            MalformedCredentials::NotBasicScheme => "The authorization scheme was not 'Basic'."@,
            MalformedCredentials::InvalidBase64 => "Failed to base64-decode 'Basic' credentials."@,
            MalformedCredentials::InvalidUtf8 =>
                "The decoded credential string is not valid UTF8."@,
            MalformedCredentials::MissingUsername =>
                "A username must be provided in 'Basic' auth."@,
            MalformedCredentials::MissingPassword =>
                "A password must be provided in 'Basic' auth."@,
        }
    }

    /// What to tell about this failure.
    pub fn message(&self) -> (r: String)
        ensures
            r@ == self.message_text(),
    {
        match self {
            MalformedCredentials::MissingHeader => String::from_str(
                "The 'Authorization' header was missing",
            ),
            MalformedCredentials::HeaderNotText => String::from_str(
                "The 'Authorization' header was not a valid UTF8 string.",
            ),
            MalformedCredentials::NotBasicScheme => String::from_str(
                "The authorization scheme was not 'Basic'.",
            ),
            MalformedCredentials::InvalidBase64 => String::from_str(
                "Failed to base64-decode 'Basic' credentials.",
            ),
            MalformedCredentials::InvalidUtf8 => String::from_str(
                "The decoded credential string is not valid UTF8.",
            ),
            MalformedCredentials::MissingUsername => String::from_str(
                "A username must be provided in 'Basic' auth.",
            ),
            MalformedCredentials::MissingPassword => String::from_str(
                "A password must be provided in 'Basic' auth.",
            ),
        }
    }
}

/// Whether the account at `i` has exactly this username and password.
pub open spec fn is_match(users: Seq<User>, i: int, username: Seq<char>, password: Seq<char>) -> bool {
    0 <= i < users.len() && users[i].username@ == username && users[i].password@ == password
}

/// The places of the accounts with this username and password.
pub open spec fn matches_at(users: Seq<User>, username: Seq<char>, password: Seq<char>) -> spec_fn(
    int,
) -> bool {
    |i: int| is_match(users, i, username, password)
}

/// The first account with this username and password, if there is one.
pub open spec fn matching_user(users: Seq<User>, username: Seq<char>, password: Seq<char>) -> Option<
    u128,
> {
    match first_where(matches_at(users, username, password)) {
        Some(first) => Some(users[first].user_id),
        None => None,
    }
}

/// What a lookup of the presented credentials among the accounts means: the
/// operator's identifier if an account was found, and one and the same error
/// whether the username is unknown or the password is wrong.
pub fn verdict_on_lookup(found: Option<u128>) -> (r: Result<u128, AuthError>)
    ensures
        match (found, r) {
            (Some(id), Ok(user_id)) => user_id == id,
            (None, Err(AuthError::InvalidCredentials(message))) => message@
                == "Invalid username or password."@,
            _ => false,
        },
{
    match found {
        Some(user_id) => Ok(user_id),
        None => Err(AuthError::InvalidCredentials(String::from_str("Invalid username or password."))),
    }
}

/// Checks the presented credentials against the accounts.
pub fn validate_credentials(credentials: &Credentials, users: &Vec<User>) -> (r: Result<
    u128,
    AuthError,
>)
    ensures
        match (matching_user(users@, credentials.username@, credentials.password@), r) {
            (Some(id), Ok(user_id)) => user_id == id,
            (None, Err(AuthError::InvalidCredentials(message))) => message@
                == "Invalid username or password."@,
            _ => false,
        },
{
    let ghost matches = matches_at(users@, credentials.username@, credentials.password@);
    let mut i: usize = 0;
    while i < users.len()
        invariant
            i <= users.len(),
            matches == matches_at(users@, credentials.username@, credentials.password@),
            forall|j: int| 0 <= j < i ==> !#[trigger] matches(j),
        decreases users.len() - i,
    {
        let user = &users[i];
        if same_text(user.username.as_str(), credentials.username.as_str()) && same_text(
            user.password.as_str(),
            credentials.password.as_str(),
        ) {
            proof {
                first_where_is(matches, i as int);
            }
            return verdict_on_lookup(Some(user.user_id));
        }
        i = i + 1;
    }
    proof {
        first_where_nowhere(matches);
    }
    verdict_on_lookup(None)
}

} // verus!
