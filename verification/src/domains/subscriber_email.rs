use vstd::prelude::*;
use vstd::string::StringExecFns;

verus! {

/// Whether a text is an email address by the syntax that HTML asks of the
/// value of an email field, as `validator::validate_email` decides it.
pub uninterp spec fn email_syntax_ok(s: Seq<char>) -> bool;

/// An email address: a text that passes the syntax check. Such a text is not
/// empty, holds an `@` and does not begin with one.
pub open spec fn is_email_address(s: Seq<char>) -> bool {
    &&& s.len() > 0
    &&& s.contains('@')
    &&& s[0] != '@'
    &&& email_syntax_ok(s)
}

/// The message that goes with a rejected email address.
pub open spec fn invalid_email_message(value: Seq<char>) -> Seq<char> {
    value + " is not valid subscriber email"@
}

/// Asks `validator::validate_email` whether `value` is an email address.
///
/// Trusted: the answer is [`email_syntax_ok`] of the text. An accepted text
/// is not empty, holds an `@`, and its part in front of the last `@` is not
/// empty and holds no `@` itself, so the text does not begin with one.
#[verifier::external_body]
fn validate_email(value: &str) -> (ok: bool)
    ensures
        ok == email_syntax_ok(value@),
        ok ==> value@.len() > 0 && value@.contains('@') && value@[0] != '@',
{
    validator::validate_email(value)
}

/// The email address of a subscriber. A value of this type always holds a
/// text that passed the syntax check.
#[derive(Debug)]
pub struct SubscriberEmail(String);

impl View for SubscriberEmail {
    type V = Seq<char>;

    closed spec fn view(&self) -> Seq<char> {
        self.0@
    }
}

impl SubscriberEmail {
    #[verifier::type_invariant]
    spec fn holds_checked_address(&self) -> bool {
        is_email_address(self.0@)
    }

    /// Turns raw input into an email address, or says that it is none.
    pub fn parse(value: String) -> (r: Result<SubscriberEmail, String>)
        ensures
            match r {
                Ok(email) => is_email_address(value@) && email@ == value@,
                Err(message) => !is_email_address(value@) && message@ == invalid_email_message(
                    value@,
                ),
            },
    {
        if validate_email(value.as_str()) {
            Ok(SubscriberEmail(value))
        } else {
            Err(value.concat(" is not valid subscriber email"))
        }
    }

    /// The address as a text.
    pub fn as_ref(&self) -> (r: &str)
        ensures
            r@ == self@,
            is_email_address(r@),
    {
        proof {
            use_type_invariant(self);
        }
        self.0.as_str()
    }

    /// The address as an owned text.
    pub fn to_string(&self) -> (r: String)
        ensures
            r@ == self@,
    {
        self.0.clone()
    }

    /// A copy of this address.
    pub fn duplicate(&self) -> (r: SubscriberEmail)
        ensures
            r@ == self@,
    {
        proof {
            use_type_invariant(self);
        }
        SubscriberEmail(self.0.clone())
    }
}

} // verus!
