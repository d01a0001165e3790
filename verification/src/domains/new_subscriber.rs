use crate::domains::subscriber_email::SubscriberEmail;
use crate::domains::subscriber_name::SubscriberName;
use vstd::prelude::*;

verus! {

/// What a visitor hands in to register, once both parts have been checked.
#[derive(Debug)]
pub struct NewSubscriber {
    pub email: SubscriberEmail,
    pub name: SubscriberName,
}

} // verus!
