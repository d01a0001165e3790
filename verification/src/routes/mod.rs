//! What the service answers to each kind of request.
//!
//! Each request comes in two forms. One is a function that carries the whole
//! request out against the store and the outbox in memory; its contract says
//! what the request does. The other is the same decisions cut into steps, for
//! a caller who has a real store and a real mail service to ask in between.

pub mod admin;
pub mod login;
mod newsletters;
mod registration;
mod response;
mod subscription_confirms;
mod subscriptions;

pub use admin::{
    accounts_of, admin_dashboard, admin_dashboard_html, change_password, dashboard_access,
    dashboard_page, get_username, is_account, username_of, PasswordRefusal, DASHBOARD_HEAD,
    DASHBOARD_TAIL,
};
pub use login::{
    after_credential_check, after_session_insert, body_html_content, error_paragraphs, login,
    login_form, login_redirect, LoginError, LoginRejection, LOGIN_PAGE_HEAD, LOGIN_PAGE_TAIL,
};
pub use crate::store::{confirm_subscriber, get_subscriber_id_from_token};
pub use newsletters::{
    bounce_at, bounces_at, confirmed_subscribers_from, delivery_failure, entry_of, entry_texts,
    fan_out, fan_out_stops_at_the_first_failure, first_bounce, get_confirmed_subscriber,
    issue_for, publish_newsletter, published, recipients_are_confirmed, recipients_of,
    Authorized, BodyData, ConfirmedSubscriber, Content, CredentialCheck, Delivery, DeliveryStep,
    IssueText, PublishError,
};
pub use registration::{Registration, RegistrationPhase};
pub use response::{Response, BAD_REQUEST, INTERNAL_SERVER_ERROR, OK, SEE_OTHER, UNAUTHORIZED};
pub use subscription_confirms::{
    after_confirmation, after_token_lookup, confirm, confirmation_is_idempotent,
    confirmation_keeps_tokens, confirmation_marks_the_subscriber, confirmation_never_reverts,
    confirming_again_changes_nothing, Parameters,
};
pub use subscriptions::{
    compose_confirmation_email, confirmation_email, confirmation_link, error_chain,
    error_chain_fmt, generate_subscription_token, insert_subscriber, interrupted_at,
    invalid_input_is_rejected, is_alphanumeric, is_pending_row, is_random_uuid,
    is_subscription_token, parse_subscriber, parsed, pending_subscriber, plainly_invalid,
    registered, registration_adds_one_of_each, send_confirmation_email, store_token, subscribes,
    FormData, StoreTokenError, SubscribeError, TOKEN_LENGTH,
};
