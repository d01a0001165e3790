use vstd::prelude::*;
use vstd::string::StringExecFns;

verus! {

pub const OK: u16 = 200;

pub const SEE_OTHER: u16 = 303;

pub const BAD_REQUEST: u16 = 400;

pub const UNAUTHORIZED: u16 = 401;

pub const INTERNAL_SERVER_ERROR: u16 = 500;

/// An answer to a request, as far as this crate decides on it: the status,
/// the headers that carry a decision, and the page if there is one.
#[derive(Debug)]
pub struct Response {
    pub status: u16,
    /// The value of the header `WWW-Authenticate`.
    pub www_authenticate: Option<String>,
    /// The value of the header `Location`.
    pub location: Option<String>,
    /// The HTML page that is the body.
    pub body: Option<String>,
}

impl Response {
    /// An answer that is nothing but the status `status`.
    pub open spec fn is_bare(&self, status: u16) -> bool {
        &&& self.status == status
        &&& self.www_authenticate is None
        &&& self.location is None
        &&& self.body is None
    }

    /// An answer that sends the client on to `location`.
    pub open spec fn is_redirect_to(&self, location: Seq<char>) -> bool {
        &&& self.status == SEE_OTHER
        &&& self.www_authenticate is None
        &&& self.location matches Some(target) && target@ == location
        &&& self.body is None
    }

    /// An answer that asks the client to authenticate as `challenge` says.
    pub open spec fn is_challenge(&self, challenge: Seq<char>) -> bool {
        &&& self.status == UNAUTHORIZED
        &&& self.www_authenticate matches Some(value) && value@ == challenge
        &&& self.location is None
        &&& self.body is None
    }

    /// An answer that shows the page `html`.
    pub open spec fn is_page(&self, html: Seq<char>) -> bool {
        &&& self.status == OK
        &&& self.www_authenticate is None
        &&& self.location is None
        &&& self.body matches Some(page) && page@ == html
    }

    pub fn new(status: u16) -> (r: Response)
        ensures
            r.is_bare(status),
    {
        Response { status, www_authenticate: None, location: None, body: None }
    }

    pub fn see_other(location: &str) -> (r: Response)
        ensures
            r.is_redirect_to(location@),
    {
        Response {
            status: SEE_OTHER,
            www_authenticate: None,
            location: Some(location.to_owned()),
            body: None,
        }
    }

    pub fn unauthorized(challenge: &str) -> (r: Response)
        ensures
            r.is_challenge(challenge@),
    {
        Response {
            status: UNAUTHORIZED,
            www_authenticate: Some(challenge.to_owned()),
            location: None,
            body: None,
        }
    }

    pub fn page(html: String) -> (r: Response)
        ensures
            r.is_page(html@),
    {
        Response { status: OK, www_authenticate: None, location: None, body: Some(html) }
    }
}

} // verus!
