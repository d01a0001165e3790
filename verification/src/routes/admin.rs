use crate::authentication::User;
use crate::routes::response::{Response, INTERNAL_SERVER_ERROR};
use crate::search::{first_where, first_where_is, first_where_nowhere};
use crate::text::same_text;
use vstd::prelude::*;
use vstd::string::StringExecFns;

verus! {

/// The dashboard up to the name of the operator.
pub const DASHBOARD_HEAD: &'static str = "\n            <!DOCTYPE html>\n            <html lang=\"en\">\n                <head>\n                    <meta http-equiv=\"content-type\" content=\"text/html; charset=utf-8\">\n                    <title>Admin dashboard</title>\n                </head>\n                <body>\n                    <p>Welcome ";

/// The dashboard from the name of the operator on.
pub const DASHBOARD_TAIL: &'static str = "!</p>\n                </body>\n            </html>\n        ";

/// What an operator fills in to change the password.
#[derive(Debug)]
pub struct FormData {
    pub current_password: String,
    pub new_password: String,
    pub new_password_confirm: String,
}

/// A change of password that is turned down: the answer, and what to show
/// the operator on the next page, if anything.
#[derive(Debug)]
pub struct PasswordRefusal {
    pub flash_message: Option<String>,
    pub response: Response,
}

/// Whether the account at `i` has the identifier `user_id`.
pub open spec fn is_account(users: Seq<User>, i: int, user_id: u128) -> bool {
    0 <= i < users.len() && users[i].user_id == user_id
}

/// The places of the accounts with the identifier `user_id`.
pub open spec fn accounts_of(users: Seq<User>, user_id: u128) -> spec_fn(int) -> bool {
    |i: int| is_account(users, i, user_id)
}

/// The username of the first account with the identifier `user_id`.
pub open spec fn username_of(users: Seq<User>, user_id: u128) -> Option<Seq<char>> {
    match first_where(accounts_of(users, user_id)) {
        Some(first) => Some(users[first].username@),
        None => None,
    }
}

/// The dashboard of the operator `username`.
pub fn admin_dashboard_html(username: String) -> (page: String)
    ensures
        page@ == DASHBOARD_HEAD@ + username@ + DASHBOARD_TAIL@,
{
    String::from_str(DASHBOARD_HEAD).concat(username.as_str()).concat(DASHBOARD_TAIL)
}

/// Looks up the username of an operator among the accounts.
pub fn get_username(user_id: u128, users: &Vec<User>) -> (r: Option<String>)
    ensures
        match (username_of(users@, user_id), r) {
            (Some(expected), Some(username)) => username@ == expected,
            (None, None) => true,
            _ => false,
        },
{
    let ghost accounts = accounts_of(users@, user_id);
    let mut i: usize = 0;
    while i < users.len()
        invariant
            i <= users.len(),
            accounts == accounts_of(users@, user_id),
            forall|j: int| 0 <= j < i ==> !#[trigger] accounts(j),
        decreases users.len() - i,
    {
        if users[i].user_id == user_id {
            proof {
                first_where_is(accounts, i as int);
            }
            return Some(users[i].username.clone());
        }
        i = i + 1;
    }
    proof {
        first_where_nowhere(accounts);
    }
    None
}

/// Decides whether a visitor may see the dashboard: the operator of the
/// session may, anyone else is sent to the login page.
pub fn dashboard_access(session_user: Option<u128>) -> (r: Result<u128, Response>)
    ensures
        match (session_user, r) {
            (Some(id), Ok(user_id)) => user_id == id,
            (None, Err(response)) => response.is_redirect_to("/login"@),
            _ => false,
        },
{
    match session_user {
        Some(user_id) => Ok(user_id),
        None => Err(Response::see_other("/login")),
    }
}

/// The answer to a request for the dashboard once the username was looked
/// up: the dashboard, or a server error if the lookup failed.
pub fn dashboard_page(username: Result<String, String>) -> (response: Response)
    ensures
        match username {
            Ok(name) => response.is_page(DASHBOARD_HEAD@ + name@ + DASHBOARD_TAIL@),
            Err(_) => response.is_bare(INTERNAL_SERVER_ERROR),
        },
{
    match username {
        Ok(name) => Response::page(admin_dashboard_html(name)),
        Err(_) => Response::new(INTERNAL_SERVER_ERROR),
    }
}

/// Answers a request for the dashboard against the accounts.
pub fn admin_dashboard(session_user: Option<u128>, users: &Vec<User>) -> (response: Response)
    ensures
        match session_user {
            None => response.is_redirect_to("/login"@),
            Some(user_id) => match username_of(users@, user_id) {
                Some(name) => response.is_page(DASHBOARD_HEAD@ + name + DASHBOARD_TAIL@),
                None => response.is_bare(INTERNAL_SERVER_ERROR),
            },
        },
{
    let user_id = match dashboard_access(session_user) {
        Ok(user_id) => user_id,
        Err(response) => { return response; },
    };
    match get_username(user_id, users) {
        Some(name) => dashboard_page(Ok(name)),
        None => dashboard_page(
            Err(String::from_str("Failed to perform a query to retrieve a username")),
        ),
    }
}

/// Looks at a request to change the password and turns it down if it
/// cannot go on: a visitor who is not logged in is sent to the login page,
/// an operator whose two entries of the new password differ is sent back to
/// the form and told so. `None` says that neither is the case.
pub fn change_password(form: &FormData, session_user: Option<u128>) -> (r: Option<PasswordRefusal>)
    ensures
        match r {
            Some(refusal) => if session_user is None {
                refusal.flash_message is None && refusal.response.is_redirect_to("/login"@)
            } else {
                &&& form.new_password@ != form.new_password_confirm@
                &&& refusal.flash_message matches Some(message) && message@
                    == "You entered two different new passwords - the field values must match."@
                &&& refusal.response.is_redirect_to("admin/password"@)
            },
            None => session_user is Some && form.new_password@ == form.new_password_confirm@,
        },
{
    if session_user.is_none() {
        return Some(
            PasswordRefusal { flash_message: None, response: Response::see_other("/login") },
        );
    }
    if !same_text(form.new_password.as_str(), form.new_password_confirm.as_str()) {
        return Some(
            PasswordRefusal {
                flash_message: Some(
                    String::from_str(
                        "You entered two different new passwords - the field values must match.",
                    ),
                ),
                response: Response::see_other("admin/password"),
            },
        );
    }
    None
}

} // verus!
