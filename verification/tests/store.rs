use zero2prod::store::{
    confirm_subscriber, get_subscriber_id_from_token, StoreOperation, Subscriber,
    SubscriberStatus, SubscriberStore, SubscriptionToken,
};

fn subscriber(id: u128, email: &str, status: SubscriberStatus) -> Subscriber {
    Subscriber {
        id,
        email: email.to_string(),
        name: "subscriber".to_string(),
        subscribed_at: 1_700_000_000_000_000,
        status,
    }
}

fn token(token: &str, subscriber_id: u128) -> SubscriptionToken {
    SubscriptionToken { subscription_token: token.to_string(), subscriber_id }
}

fn filled() -> SubscriberStore {
    let mut store = SubscriberStore::new();
    let mut transaction = store.begin().unwrap();
    transaction.insert_subscriber(subscriber(1, "a@domain.com", SubscriberStatus::Confirmed)).unwrap();
    transaction
        .insert_subscriber(subscriber(2, "b@domain.com", SubscriberStatus::PendingConfirmation))
        .unwrap();
    transaction.store_token(token("first", 1)).unwrap();
    transaction.store_token(token("second", 2)).unwrap();
    store.commit(transaction).unwrap();
    store
}

#[test]
fn a_new_store_is_empty() {
    let store = SubscriberStore::new();

    assert!(store.subscribers().is_empty());
    assert!(store.tokens().is_empty());
    assert_eq!(store.confirmed_subscribers(), Ok(Vec::new()));
    assert_eq!(get_subscriber_id_from_token(&store, "anything"), Ok(None));
}

#[test]
fn a_transaction_writes_nothing_until_it_is_committed() {
    let mut store = filled();
    let mut transaction = store.begin().unwrap();
    transaction.insert_subscriber(subscriber(3, "c@domain.com", SubscriberStatus::Confirmed)).unwrap();
    transaction.store_token(token("third", 3)).unwrap();

    assert_eq!(store.subscribers().len(), 2);
    assert_eq!(get_subscriber_id_from_token(&store, "third"), Ok(None));

    store.commit(transaction).unwrap();

    assert_eq!(store.subscribers().len(), 3);
    assert_eq!(store.subscribers()[2].email, "c@domain.com");
    assert_eq!(get_subscriber_id_from_token(&store, "third"), Ok(Some(3)));
}

#[test]
fn a_dropped_transaction_writes_nothing() {
    let store = filled();
    {
        let mut transaction = store.begin().unwrap();
        transaction
            .insert_subscriber(subscriber(3, "c@domain.com", SubscriberStatus::Confirmed))
            .unwrap();
    }

    assert_eq!(store.subscribers().len(), 2);
    assert_eq!(store.tokens().len(), 2);
}

#[test]
fn rows_keep_the_order_in_which_they_were_written() {
    let store = filled();

    let ids: Vec<u128> = store.subscribers().iter().map(|row| row.id).collect();
    let tokens: Vec<&str> =
        store.tokens().iter().map(|row| row.subscription_token.as_str()).collect();

    assert_eq!(ids, vec![1, 2]);
    assert_eq!(tokens, vec!["first", "second"]);
}

#[test]
fn confirming_marks_the_subscriber_and_no_other() {
    let mut store = filled();

    confirm_subscriber(&mut store, 2).unwrap();

    assert_eq!(store.subscribers()[0].status, SubscriberStatus::Confirmed);
    assert_eq!(store.subscribers()[1].status, SubscriberStatus::Confirmed);
    assert_eq!(store.subscribers()[1].email, "b@domain.com");
    assert_eq!(store.subscribers()[1].subscribed_at, 1_700_000_000_000_000);
    assert_eq!(
        store.confirmed_subscribers(),
        Ok(vec![(1, "a@domain.com".to_string()), (2, "b@domain.com".to_string())])
    );

    confirm_subscriber(&mut store, 9).unwrap();
    confirm_subscriber(&mut store, 1).unwrap();
    assert_eq!(store.subscribers()[0].status, SubscriberStatus::Confirmed);
    assert_eq!(store.subscribers().len(), 2);
}

#[test]
fn only_the_operation_that_is_out_of_order_fails() {
    let operations = [
        StoreOperation::Begin,
        StoreOperation::InsertSubscriber,
        StoreOperation::StoreToken,
        StoreOperation::Commit,
        StoreOperation::GetSubscriberIdFromToken,
        StoreOperation::ConfirmSubscriber,
        StoreOperation::GetConfirmedSubscribers,
    ];
    for failing in operations {
        let mut store = filled();
        let mut transaction = store.begin().unwrap();
        store.fail_on(Some(failing));
        let mut failed = Vec::new();

        if store.begin().is_err() {
            failed.push(StoreOperation::Begin);
        }
        // The transaction was opened while the store was in order; one that
        // is opened now fails where the store does.
        assert!(transaction
            .insert_subscriber(subscriber(3, "c@domain.com", SubscriberStatus::Confirmed))
            .is_ok());
        if let Ok(mut late) = store.begin() {
            if late
                .insert_subscriber(subscriber(4, "d@domain.com", SubscriberStatus::Confirmed))
                .is_err()
            {
                failed.push(StoreOperation::InsertSubscriber);
            }
            if late.store_token(token("late", 4)).is_err() {
                failed.push(StoreOperation::StoreToken);
            }
        }
        if store.commit(transaction).is_err() {
            failed.push(StoreOperation::Commit);
        }
        if get_subscriber_id_from_token(&store, "first").is_err() {
            failed.push(StoreOperation::GetSubscriberIdFromToken);
        }
        if confirm_subscriber(&mut store, 2).is_err() {
            failed.push(StoreOperation::ConfirmSubscriber);
        }
        if store.confirmed_subscribers().is_err() {
            failed.push(StoreOperation::GetConfirmedSubscribers);
        }

        assert_eq!(failed, vec![failing]);
    }
}

#[test]
fn a_failed_operation_changes_nothing() {
    let mut store = filled();
    let mut transaction = store.begin().unwrap();
    transaction.insert_subscriber(subscriber(3, "c@domain.com", SubscriberStatus::Confirmed)).unwrap();

    store.fail_on(Some(StoreOperation::Commit));
    assert_eq!(store.commit(transaction), Err("Failed to commit the transaction".to_string()));
    store.fail_on(Some(StoreOperation::ConfirmSubscriber));
    assert_eq!(confirm_subscriber(&mut store, 2), Err("Failed to update the subscriber".to_string()));
    store.fail_on(None);

    assert_eq!(store.subscribers().len(), 2);
    assert_eq!(store.subscribers()[1].status, SubscriberStatus::PendingConfirmation);
}

#[test]
fn every_failure_has_its_message() {
    assert_eq!(StoreOperation::Begin.failure_message(), "Failed to begin a transaction");
    assert_eq!(StoreOperation::InsertSubscriber.failure_message(), "Failed to insert a subscriber");
    assert_eq!(
        StoreOperation::StoreToken.failure_message(),
        "Failed to insert a subscription token"
    );
    assert_eq!(StoreOperation::Commit.failure_message(), "Failed to commit the transaction");
    assert_eq!(
        StoreOperation::GetSubscriberIdFromToken.failure_message(),
        "Failed to read the subscription tokens"
    );
    assert_eq!(
        StoreOperation::ConfirmSubscriber.failure_message(),
        "Failed to update the subscriber"
    );
    assert_eq!(
        StoreOperation::GetConfirmedSubscribers.failure_message(),
        "Failed to read the subscribers"
    );
}

#[test]
fn a_status_has_its_word() {
    assert_eq!(SubscriberStatus::PendingConfirmation.as_str(), "pending_confirmation");
    assert_eq!(SubscriberStatus::Confirmed.as_str(), "confirmed");
}
