//! Validated values that a registration is made of.

mod new_subscriber;
mod subscriber_email;
mod subscriber_name;

pub use new_subscriber::NewSubscriber;
pub use subscriber_email::{
    email_syntax_ok, invalid_email_message, is_email_address, SubscriberEmail,
};
pub use subscriber_name::{
    char_is_forbidden, char_is_white_space, contains_forbidden_characters, grapheme_count,
    has_forbidden_character, invalid_name_message, is_acceptable, is_blank,
    is_empty_or_whitespace, is_forbidden_character, is_valid_name, is_white_space,
    name_is_acceptable, SubscriberName, MAX_NAME_GRAPHEMES,
};
