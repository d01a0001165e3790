use crate::authentication::credentials::{
    matching_user, validate_credentials, AuthError, Credentials, MalformedCredentials, User,
};
use crate::text::{find_char, push_char, strip_prefix};
use base64::Engine;
use vstd::prelude::*;
use vstd::string::StrSliceExecFns;
use vstd::utf8::{decode_utf8, valid_utf8};

verus! {

/// The bytes that a header value may hold to count as text: printable ASCII
/// and the tab.
pub open spec fn is_visible_ascii(b: u8) -> bool {
    (32 <= b < 127) || b == 9
}

/// Whether the value of a header is text.
pub open spec fn is_header_text(value: Seq<u8>) -> bool {
    forall|i: int| 0 <= i < value.len() ==> is_visible_ascii(#[trigger] value[i])
}

/// A sequence of ASCII bytes read as characters.
pub open spec fn ascii_text(value: Seq<u8>) -> Seq<char> {
    Seq::new(value.len(), |i: int| value[i] as char)
}

/// What the standard base64 alphabet with padding decodes a text to, if the
/// text is a base64 encoding at all.
pub uninterp spec fn base64_decoded(encoded: Seq<char>) -> Option<Seq<u8>>;

#[verifier::external_type_specification]
#[verifier::external_body]
pub struct ExDecodeError(base64::DecodeError);

/// Decodes `encoded` with `base64::engine::general_purpose::STANDARD`.
///
/// Trusted: the call succeeds exactly on the texts that
/// [`base64_decoded`] knows, with the bytes that it gives.
#[verifier::external_body]
fn decode_base64(encoded: &str) -> (r: Result<Vec<u8>, base64::DecodeError>)
    ensures
        match r {
            Ok(bytes) => base64_decoded(encoded@) == Some(bytes@),
            Err(_) => base64_decoded(encoded@) is None,
        },
{
    base64::engine::general_purpose::STANDARD.decode(encoded)
}

#[verifier::external_type_specification]
#[verifier::external_body]
pub struct ExFromUtf8Error(std::string::FromUtf8Error);

/// Reads `bytes` as UTF-8 with `String::from_utf8`.
///
/// Trusted: the call succeeds exactly on valid UTF-8, with the characters
/// that the bytes encode.
#[verifier::external_body]
fn text_from_utf8(bytes: Vec<u8>) -> (r: Result<String, std::string::FromUtf8Error>)
    ensures
        match r {
            Ok(text) => valid_utf8(bytes@) && text@ == decode_utf8(bytes@),
            Err(_) => !valid_utf8(bytes@),
        },
{
    String::from_utf8(bytes)
}

/// The part of an `Authorization` header that follows the scheme `Basic`.
pub open spec fn basic_scheme_payload(authorization: Option<Seq<u8>>) -> Result<
    Seq<char>,
    MalformedCredentials,
> {
    match authorization {
        None => Err(MalformedCredentials::MissingHeader),
        Some(value) => if !is_header_text(value) {
            Err(MalformedCredentials::HeaderNotText)
        } else if !"Basic "@.is_prefix_of(ascii_text(value)) {
            Err(MalformedCredentials::NotBasicScheme)
        } else {
            Ok(ascii_text(value).skip("Basic "@.len() as int))
        },
    }
}

/// The username and the password in `text`: what stands in front of its
/// first colon and what follows it.
///
/// The username is looked at first. It is what stands in front of the first
/// colon, or the whole text if there is no colon, and it must not be empty.
/// Only then is a colon asked for, as the sign that a password follows. The
/// password itself may be empty, and may hold colons of its own.
pub open spec fn split_at_colon(text: Seq<char>) -> Result<
    (Seq<char>, Seq<char>),
    MalformedCredentials,
> {
    match text.index_of_first(':') {
        None => if text.len() == 0 {
            Err(MalformedCredentials::MissingUsername)
        } else {
            Err(MalformedCredentials::MissingPassword)
        },
        Some(colon) => if colon == 0 {
            Err(MalformedCredentials::MissingUsername)
        } else {
            Ok((text.take(colon), text.skip(colon + 1)))
        },
    }
}

/// The username and the password in the decoded payload of a `Basic`
/// header, which must be UTF-8: see [`split_at_colon`].
pub open spec fn credentials_in(decoded: Seq<u8>) -> Result<
    (Seq<char>, Seq<char>),
    MalformedCredentials,
> {
    if !valid_utf8(decoded) {
        Err(MalformedCredentials::InvalidUtf8)
    } else {
        split_at_colon(decode_utf8(decoded))
    }
}

/// The username and the password that an `Authorization` header presents, or
/// why it presents none.
pub open spec fn presented_credentials(authorization: Option<Seq<u8>>) -> Result<
    (Seq<char>, Seq<char>),
    MalformedCredentials,
> {
    match basic_scheme_payload(authorization) {
        Err(error) => Err(error),
        Ok(payload) => match base64_decoded(payload) {
            None => Err(MalformedCredentials::InvalidBase64),
            Some(decoded) => credentials_in(decoded),
        },
    }
}

/// The raw value of a header as a sequence of bytes.
pub open spec fn header_bytes(authorization: Option<&[u8]>) -> Option<Seq<u8>> {
    match authorization {
        Some(value) => Some(value@),
        None => None,
    }
}

/// Username and password of the credentials that were read, or the reason
/// why none were.
pub open spec fn credentials_text(r: Result<Credentials, MalformedCredentials>) -> Result<
    (Seq<char>, Seq<char>),
    MalformedCredentials,
> {
    match r {
        Ok(credentials) => Ok((credentials.username@, credentials.password@)),
        Err(error) => Err(error),
    }
}

/// Reads the value of an `Authorization` header as text and takes the scheme
/// `Basic` off its front.
pub fn basic_payload(authorization: Option<&[u8]>) -> (r: Result<String, MalformedCredentials>)
    ensures
        match (basic_scheme_payload(header_bytes(authorization)), r) {
            (Ok(expected), Ok(payload)) => payload@ == expected,
            (Err(expected), Err(error)) => error == expected,
            _ => false,
        },
{
    let value = match authorization {
        Some(value) => value,
        None => { return Err(MalformedCredentials::MissingHeader); },
    };
    let mut header_value = String::new();
    let mut i: usize = 0;
    while i < value.len()
        invariant
            authorization == Some(value),
            i <= value.len(),
            header_value@ == ascii_text(value@.take(i as int)),
            is_header_text(value@.take(i as int)),
        decreases value.len() - i,
    {
        let b: u8 = value[i];
        if !((32 <= b && b < 127) || b == 9) {
            return Err(MalformedCredentials::HeaderNotText);
        }
        push_char(&mut header_value, b as char);
        i = i + 1;
    }
    assert(value@.take(i as int) =~= value@);
    match strip_prefix(header_value.as_str(), "Basic ") {
        Some(payload) => {
            Ok(payload.to_owned())
        },
        None => Err(MalformedCredentials::NotBasicScheme),
    }
}

/// Splits `username:password` at its first colon.
///
/// A text with nothing in front of its first colon, and the empty text, hold
/// no username. A text without a colon holds no password. A text that ends
/// with its first colon holds a password, the empty one, and is accepted;
/// the password may also hold colons of its own.
pub fn split_credentials(text: &str) -> (r: Result<Credentials, MalformedCredentials>)
    ensures
        credentials_text(r) == split_at_colon(text@),
        match r {
            Ok(credentials) => {
                &&& text@ == credentials.username@ + seq![':'] + credentials.password@
                &&& !credentials.username@.contains(':')
                &&& credentials.username@.len() > 0
            },
            Err(error) => if text@.len() == 0 || text@[0] == ':' {
                error == MalformedCredentials::MissingUsername
            } else {
                error == MalformedCredentials::MissingPassword && !text@.contains(':')
            },
        },
{
    proof {
        text@.index_of_first_ensures(':');
    }
    match find_char(text, ':') {
        Some(colon) => {
            if colon == 0 {
                return Err(MalformedCredentials::MissingUsername);
            }
            let length = text.unicode_len();
            let username = text.substring_char(0, colon);
            let password = text.substring_char(colon + 1, length);
            Ok(Credentials { username: username.to_owned(), password: password.to_owned() })
        },
        None => if text.unicode_len() == 0 {
            Err(MalformedCredentials::MissingUsername)
        } else {
            Err(MalformedCredentials::MissingPassword)
        },
    }
}

/// Reads the decoded payload of a `Basic` header as text and splits it into
/// username and password.
pub fn credentials_from_decoded(decoded: Vec<u8>) -> (r: Result<Credentials, MalformedCredentials>)
    ensures
        credentials_text(r) == credentials_in(decoded@),
{
    match text_from_utf8(decoded) {
        Ok(text) => split_credentials(text.as_str()),
        Err(_) => Err(MalformedCredentials::InvalidUtf8),
    }
}

/// Reads the credentials that a request presents in its `Authorization`
/// header: the scheme must be `Basic`, and what follows it the base64
/// encoding of `username:password`, with a username that is not empty. The
/// password may be empty.
///
/// `authorization` is the raw value of the header, `None` if the request has
/// none.
pub fn basic_authentication(authorization: Option<&[u8]>) -> (r: Result<
    Credentials,
    MalformedCredentials,
>)
    ensures
        credentials_text(r) == presented_credentials(header_bytes(authorization)),
{
    let base64encoded_credentials = match basic_payload(authorization) {
        Ok(payload) => payload,
        Err(error) => { return Err(error); },
    };
    let decoded_bytes = match decode_base64(base64encoded_credentials.as_str()) {
        Ok(bytes) => bytes,
        Err(_) => { return Err(MalformedCredentials::InvalidBase64); },
    };
    credentials_from_decoded(decoded_bytes)
}

/// Authenticates a request: reads the credentials in its `Authorization`
/// header and looks them up among the accounts.
///
/// A header that presents no credentials fails before any account is
/// looked at. Credentials that no account has fail with one and the same
/// error, whether the username is unknown or the password is wrong.
pub fn authenticate(authorization: Option<&[u8]>, users: &Vec<User>) -> (r: Result<u128, AuthError>)
    ensures
        match presented_credentials(header_bytes(authorization)) {
            Err(error) => r matches Err(AuthError::MalformedCredentials(reason)) && reason
                == error,
            Ok((username, password)) => match matching_user(users@, username, password) {
                Some(id) => r == Ok::<u128, AuthError>(id),
                None => r matches Err(AuthError::InvalidCredentials(message)) && message@
                    == "Invalid username or password."@,
            },
        },
{
    match basic_authentication(authorization) {
        Ok(credentials) => validate_credentials(&credentials, users),
        Err(error) => Err(AuthError::MalformedCredentials(error)),
    }
}

} // verus!
