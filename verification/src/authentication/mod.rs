//! Who is asking: the credentials of an operator and how they are read from a
//! request and checked.

mod basic;
mod credentials;
mod middleware;

pub use basic::{
    ascii_text, authenticate, base64_decoded, basic_authentication, basic_payload,
    basic_scheme_payload, credentials_from_decoded, credentials_in, credentials_text,
    header_bytes, is_header_text, is_visible_ascii, presented_credentials, split_at_colon,
    split_credentials,
};
pub use credentials::{
    is_match, matches_at, matching_user, validate_credentials, verdict_on_lookup, AuthError, Credentials,
    MalformedCredentials, User,
};
pub use middleware::{reject_anonymous_users, AccessDecision, UserId};
