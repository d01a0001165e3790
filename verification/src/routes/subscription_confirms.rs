use crate::routes::response::{Response, INTERNAL_SERVER_ERROR, OK, UNAUTHORIZED};
use crate::store::{
    confirm_subscriber, get_subscriber_id_from_token, StoreOperation, SubscriberRow,
    SubscriberStatus, SubscriberStore, Tables,
};
use vstd::prelude::*;

verus! {

/// What the link in a confirmation email carries.
#[derive(Debug)]
pub struct Parameters {
    pub subscription_token: String,
}

/// Decides what follows the lookup of a confirmation token: the subscriber
/// to confirm if the token was issued to one, else the answer that ends the
/// request. An unknown token is answered as unauthorized, so that the answer
/// does not tell which tokens exist; only a store that could not be read is
/// a server error.
pub fn after_token_lookup(lookup: Result<Option<u128>, String>) -> (r: Result<u128, Response>)
    ensures
        match (lookup, r) {
            (Ok(Some(id)), Ok(subscriber_id)) => subscriber_id == id,
            (Ok(None), Err(response)) => response.is_bare(UNAUTHORIZED),
            (Err(_), Err(response)) => response.is_bare(INTERNAL_SERVER_ERROR),
            _ => false,
        },
{
    match lookup {
        Ok(Some(subscriber_id)) => Ok(subscriber_id),
        Ok(None) => Err(Response::new(UNAUTHORIZED)),
        Err(_) => Err(Response::new(INTERNAL_SERVER_ERROR)),
    }
}

/// The answer once the subscriber was to be marked confirmed.
pub fn after_confirmation(update: Result<(), String>) -> (response: Response)
    ensures
        match update {
            Ok(_) => response.is_bare(OK),
            Err(_) => response.is_bare(INTERNAL_SERVER_ERROR),
        },
{
    match update {
        Ok(_) => Response::new(OK),
        Err(_) => Response::new(INTERNAL_SERVER_ERROR),
    }
}

/// Confirms the subscriber that the token of `parameters` was issued to.
///
/// A known token marks its subscriber confirmed, whatever the status was, so
/// that confirming again changes nothing and succeeds again. An unknown
/// token changes nothing and is answered as unauthorized. A server error is
/// the answer only where the store fails, and then nothing is changed
/// either.
pub fn confirm(parameters: &Parameters, store: &mut SubscriberStore) -> (response: Response)
    ensures
        final(store).failing() == old(store).failing(),
        if old(store).failing() == Some(StoreOperation::GetSubscriberIdFromToken) {
            response.is_bare(INTERNAL_SERVER_ERROR) && final(store)@ == old(store)@
        } else {
            match old(store)@.token_owner(parameters.subscription_token@) {
                None => response.is_bare(UNAUTHORIZED) && final(store)@ == old(store)@,
                Some(subscriber_id) => if old(store).failing() == Some(
                    StoreOperation::ConfirmSubscriber,
                ) {
                    response.is_bare(INTERNAL_SERVER_ERROR) && final(store)@ == old(store)@
                } else {
                    response.is_bare(OK) && final(store)@ == old(store)@.with_confirmed(
                        subscriber_id,
                    )
                },
            }
        },
{
    let lookup = get_subscriber_id_from_token(store, parameters.subscription_token.as_str());
    match after_token_lookup(lookup) {
        Err(response) => response,
        Ok(subscriber_id) => after_confirmation(confirm_subscriber(store, subscriber_id)),
    }
}

/// Confirming a subscriber marks every row of that subscriber confirmed and
/// leaves everything else as it was.
pub proof fn confirmation_marks_the_subscriber(tables: Tables, subscriber_id: u128)
    ensures
        tables.with_confirmed(subscriber_id).subscription_tokens == tables.subscription_tokens,
        tables.with_confirmed(subscriber_id).subscriptions.len() == tables.subscriptions.len(),
        forall|i: int|
            0 <= i < tables.subscriptions.len() ==> {
                let before = tables.subscriptions[i];
                let after = #[trigger] tables.with_confirmed(subscriber_id).subscriptions[i];
                if before.id == subscriber_id {
                    after == (SubscriberRow { status: SubscriberStatus::Confirmed, ..before })
                } else {
                    after == before
                }
            },
{
}

/// Nothing leads back: a subscriber who was confirmed stays confirmed
/// through any confirmation, of that subscriber or of another.
pub proof fn confirmation_never_reverts(tables: Tables, subscriber_id: u128)
    ensures
        forall|i: int|
            0 <= i < tables.subscriptions.len() && tables.subscriptions[i].status
                == SubscriberStatus::Confirmed ==> (#[trigger] tables.with_confirmed(
                subscriber_id,
            ).subscriptions[i]).status == SubscriberStatus::Confirmed,
{
}

/// Confirming is idempotent: a second confirmation of the same subscriber
/// leaves the tables as the first left them.
pub proof fn confirmation_is_idempotent(tables: Tables, subscriber_id: u128)
    ensures
        tables.with_confirmed(subscriber_id).with_confirmed(subscriber_id)
            == tables.with_confirmed(subscriber_id),
{
    let once = tables.with_confirmed(subscriber_id);
    let twice = once.with_confirmed(subscriber_id);
    assert(twice.subscriptions =~= once.subscriptions);
}

/// A confirmation does not touch the tokens: whoever a token was issued to
/// before, it is issued to afterwards, so that the link of a confirmation
/// email keeps working.
pub proof fn confirmation_keeps_tokens(tables: Tables, subscriber_id: u128, token: Seq<char>)
    ensures
        tables.with_confirmed(subscriber_id).token_owner(token) == tables.token_owner(token),
{
    let after = tables.with_confirmed(subscriber_id);
    assert(after.holds_token(token) =~= tables.holds_token(token));
}

/// What the properties of a confirmation come to for a request: a token that
/// is known confirms its subscriber, and presenting it again finds the same
/// subscriber and changes nothing any more.
pub proof fn confirming_again_changes_nothing(tables: Tables, token: Seq<char>)
    requires
        tables.token_owner(token) is Some,
    ensures
        ({
            let subscriber_id = tables.token_owner(token)->0;
            let once = tables.with_confirmed(subscriber_id);
            &&& once.token_owner(token) == Some(subscriber_id)
            &&& once.with_confirmed(subscriber_id) == once
        }),
{
    let subscriber_id = tables.token_owner(token)->0;
    confirmation_keeps_tokens(tables, subscriber_id, token);
    confirmation_is_idempotent(tables, subscriber_id);
}

} // verus!
