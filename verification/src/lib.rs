//! The core of a newsletter service: validated subscriber data, the
//! confirmation-token lifecycle of a subscription, operator credentials and the
//! fan-out of an issue to every confirmed subscriber.
//!
//! Every function states what it returns and changes, and is proved to do
//! so. What is taken on trust instead, the calls into other crates, is small
//! and says so where it stands. Work that needs a database or a socket is
//! left to the caller, who does what the functions of this crate decide on
//! and hands the outcome back; a store and a mail service in memory stand in
//! for them here.

pub mod authentication;
pub mod configuration;
pub mod domains;
pub mod email_client;
pub mod routes;
pub mod search;
pub mod startups;
pub mod store;
pub mod text;
