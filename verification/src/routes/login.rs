use crate::authentication::{matching_user, validate_credentials, AuthError, Credentials, User};
use crate::routes::response::Response;
use vstd::prelude::*;
use vstd::string::StringExecFns;

verus! {

/// The login page up to the place of the error messages.
pub const LOGIN_PAGE_HEAD: &'static str = "<!DOCTYPE html>\n            <html lang=\"en\">\n                <head>\n                    <meta http-equiv=\"content-type\" content=\"text/html; charset=utf-8\">\n                    <title>Login</title>\n                </head>\n                <body>\n                    ";

/// The login page from the place of the error messages on.
pub const LOGIN_PAGE_TAIL: &'static str = "\n                    <form action=\"/login\" method=\"post\">\n                        <label>Username\n                            <input\n                                type=\"text\n                                placeholder=\"Enter Username\"\n                                name=\"username\"\n                            >\n                        </label>\n                        <label>Password\n                            <input\n                                type=\"password\"\n                                placeholder=\"Enter Password\"\n                                name=\"password\"\n                            >\n                        </label>\n                        <button type=\"submit\">Login</button>\n                    </form>\n                </body>\n            </html>";

/// What an operator fills in to log in.
#[derive(Debug)]
pub struct FormData {
    pub username: String,
    pub password: String,
}

/// Why a login failed.
#[derive(Debug)]
pub enum LoginError {
    /// The credentials were not accepted. Holds the reason.
    AuthError(String),
    /// The accounts or the session could not be reached. Holds the reason.
    UnexpectedError(String),
}

/// A login that failed: the error, what to show the visitor on the next
/// page, and the answer, which leads back to the login page.
#[derive(Debug)]
pub struct LoginRejection {
    pub error: LoginError,
    pub flash_message: String,
    pub response: Response,
}

impl LoginError {
    pub open spec fn text(self) -> Seq<char> {
        match self {
            LoginError::AuthError(_) => "Authentication failed"@,
            LoginError::UnexpectedError(_) => "Something went wrong"@,
        }
    }

    /// What this error says of itself. The reason is not part of it.
    pub fn to_string(&self) -> (r: String)
        ensures
            r@ == self.text(),
    {
        match self {
            LoginError::AuthError(_) => String::from_str("Authentication failed"),
            LoginError::UnexpectedError(_) => String::from_str("Something went wrong"),
        }
    }
}

impl LoginRejection {
    /// A rejection that is caused by an authentication error, with this
    /// reason.
    pub open spec fn is_auth_error(&self, reason: Seq<char>) -> bool {
        &&& self.error matches LoginError::AuthError(cause) && cause@ == reason
        &&& self.flash_message@ == "Authentication failed"@
        &&& self.response.is_redirect_to("/login"@)
    }

    /// A rejection that is caused by an unexpected error, with this reason.
    pub open spec fn is_unexpected_error(&self, reason: Seq<char>) -> bool {
        &&& self.error matches LoginError::UnexpectedError(cause) && cause@ == reason
        &&& self.flash_message@ == "Something went wrong"@
        &&& self.response.is_redirect_to("/login"@)
    }
}

/// Sends a visitor whose login failed back to the login page, with what the
/// error says of itself as the message to show there.
pub fn login_redirect(error: LoginError) -> (rejection: LoginRejection)
    ensures
        rejection.error == error,
        rejection.flash_message@ == error.text(),
        rejection.response.is_redirect_to("/login"@),
{
    let flash_message = error.to_string();
    LoginRejection { error, flash_message, response: Response::see_other("/login") }
}

/// Decides what follows the check of the credentials of a login: the
/// operator whose session is to be opened, or the rejection.
pub fn after_credential_check(verdict: Result<u128, AuthError>) -> (r: Result<u128, LoginRejection>)
    ensures
        match (verdict, r) {
            (Ok(id), Ok(user_id)) => user_id == id,
            (Err(AuthError::InvalidCredentials(reason)), Err(rejection)) =>
                rejection.is_auth_error(reason@),
            (Err(AuthError::MalformedCredentials(error)), Err(rejection)) =>
                rejection.is_auth_error(error.message_text()),
            (Err(AuthError::UnexpectedError(reason)), Err(rejection)) =>
                rejection.is_unexpected_error(reason@),
            _ => false,
        },
{
    match verdict {
        Ok(user_id) => Ok(user_id),
        Err(error) => {
            let error = match error {
                AuthError::InvalidCredentials(reason) => LoginError::AuthError(reason),
                AuthError::MalformedCredentials(error) => LoginError::AuthError(error.message()),
                AuthError::UnexpectedError(reason) => LoginError::UnexpectedError(reason),
            };
            Err(login_redirect(error))
        },
    }
}

/// Decides what follows the opening of the session of an operator: on to
/// the dashboard, or the rejection if the session could not be written.
pub fn after_session_insert(outcome: Result<(), String>) -> (r: Result<Response, LoginRejection>)
    ensures
        match (outcome, r) {
            (Ok(_), Ok(response)) => response.is_redirect_to("/admin/dashboard"@),
            (Err(cause), Err(rejection)) => rejection.is_unexpected_error(cause@),
            _ => false,
        },
{
    match outcome {
        Ok(_) => Ok(Response::see_other("/admin/dashboard")),
        Err(cause) => Err(login_redirect(LoginError::UnexpectedError(cause))),
    }
}

/// Logs an operator in against the accounts: with the right credentials the
/// operator is told and sent on to the dashboard, with any others the
/// visitor is sent back to the login page.
pub fn login(form: FormData, users: &Vec<User>) -> (r: Result<(u128, Response), LoginRejection>)
    ensures
        match (matching_user(users@, form.username@, form.password@), r) {
            (Some(id), Ok((user_id, response))) => user_id == id && response.is_redirect_to(
                "/admin/dashboard"@,
            ),
            (None, Err(rejection)) => rejection.is_auth_error("Invalid username or password."@),
            _ => false,
        },
{
    let credentials = Credentials { username: form.username, password: form.password };
    let user_id = match after_credential_check(validate_credentials(&credentials, users)) {
        Ok(user_id) => user_id,
        Err(rejection) => { return Err(rejection); },
    };
    match after_session_insert(Ok(())) {
        Ok(response) => Ok((user_id, response)),
        Err(rejection) => Err(rejection),
    }
}

/// The messages of a failed login as HTML, one paragraph each.
pub open spec fn error_paragraphs(messages: Seq<String>) -> Seq<char>
    decreases messages.len(),
{
    if messages.len() == 0 {
        Seq::empty()
    } else {
        error_paragraphs(messages.drop_last()) + "<p><i>"@ + messages.last()@ + "</i></p>\n"@
    }
}

/// The login page, with `error_html` in front of the form.
pub fn body_html_content(error_html: String) -> (page: String)
    ensures
        page@ == LOGIN_PAGE_HEAD@ + error_html@ + LOGIN_PAGE_TAIL@,
{
    String::from_str(LOGIN_PAGE_HEAD).concat(error_html.as_str()).concat(LOGIN_PAGE_TAIL)
}

/// Shows the login page, with the messages that an earlier attempt left.
pub fn login_form(flash_messages: &Vec<String>) -> (response: Response)
    ensures
        response.is_page(LOGIN_PAGE_HEAD@ + error_paragraphs(flash_messages@) + LOGIN_PAGE_TAIL@),
{
    let mut error_html = String::new();
    let mut i: usize = 0;
    while i < flash_messages.len()
        invariant
            i <= flash_messages.len(),
            error_html@ == error_paragraphs(flash_messages@.take(i as int)),
        decreases flash_messages.len() - i,
    {
        assert(flash_messages@.take(i + 1).drop_last() =~= flash_messages@.take(i as int));
        error_html.append("<p><i>");
        error_html.append(flash_messages[i].as_str());
        error_html.append("</i></p>\n");
        i = i + 1;
    }
    assert(flash_messages@.take(i as int) =~= flash_messages@);
    Response::page(body_html_content(error_html))
}

} // verus!
