use zero2prod::domains::SubscriberEmail;
use zero2prod::email_client::{EmailClient, Outbox};
use zero2prod::routes::{
    compose_confirmation_email, error_chain_fmt, generate_subscription_token, insert_subscriber,
    parse_subscriber, pending_subscriber, send_confirmation_email,
    store_token, subscribes, FormData, StoreTokenError, SubscribeError,
};
use zero2prod::startups::ApplicationBaseUrl;
use zero2prod::store::{StoreOperation, SubscriberStatus, SubscriberStore};

fn form(name: &str, email: &str) -> FormData {
    FormData { name: name.to_string(), email: email.to_string() }
}

fn client() -> EmailClient {
    EmailClient::new(
        "http://mail.test".to_string(),
        SubscriberEmail::parse("news@domain.com".to_string()).unwrap(),
        "secret-token".to_string(),
        10_000,
    )
}

fn base_url() -> ApplicationBaseUrl {
    ApplicationBaseUrl("http://127.0.0.1".to_string())
}

#[test]
fn subscribe_persists_the_new_subscriber_as_pending_with_one_token() {
    let mut store = SubscriberStore::new();
    let mut outbox = Outbox::new(Vec::new());

    let outcome = subscribes(
        form("le guin", "ursula_le_guin@gmail.com"),
        &mut store,
        &client(),
        &mut outbox,
        &base_url(),
    );

    assert!(outcome.is_ok());
    assert_eq!(store.subscribers().len(), 1);
    let subscriber = &store.subscribers()[0];
    assert_eq!(subscriber.email, "ursula_le_guin@gmail.com");
    assert_eq!(subscriber.name, "le guin");
    assert_eq!(subscriber.status, SubscriberStatus::PendingConfirmation);
    assert_eq!(subscriber.status.as_str(), "pending_confirmation");
    assert_eq!(store.tokens().len(), 1);
    let token = &store.tokens()[0];
    assert_eq!(token.subscriber_id, subscriber.id);
    assert_eq!(token.subscription_token.len(), 25);
    assert!(token.subscription_token.chars().all(|c| c.is_ascii_alphanumeric()));
}

#[test]
fn subscribe_sends_a_confirmation_email_with_a_link() {
    let mut store = SubscriberStore::new();
    let mut outbox = Outbox::new(Vec::new());

    subscribes(
        form("le guin", "ursula_le_guin@gmail.com"),
        &mut store,
        &client(),
        &mut outbox,
        &base_url(),
    )
    .unwrap();

    assert_eq!(outbox.attempts().len(), 1);
    let attempt = &outbox.attempts()[0];
    assert!(attempt.delivered);
    let link = format!(
        "http://127.0.0.1/subscribes/confirm?subscription_token={}",
        store.tokens()[0].subscription_token
    );
    assert_eq!(attempt.request.from, "news@domain.com");
    assert_eq!(attempt.request.to, "ursula_le_guin@gmail.com");
    assert_eq!(attempt.request.subject, "Welcome to Syamim Hazmi");
    assert_eq!(
        attempt.request.text_body,
        format!("Welcome to our newsletter!\nVisit {} to confirm your subscription.", link)
    );
    assert_eq!(
        attempt.request.html_body,
        format!(
            "Welcome to our newsletter!<br />Click <a href=\"{}\">here</a> to confirm your subscription.",
            link
        )
    );
}

#[test]
fn subscribe_writes_nothing_when_the_input_is_invalid() {
    let long_name = "a".repeat(257);
    let cases = [
        ("", "ursula_le_guin@gmail.com"),
        ("   ", "ursula_le_guin@gmail.com"),
        (long_name.as_str(), "ursula_le_guin@gmail.com"),
        ("le {guin}", "ursula_le_guin@gmail.com"),
        ("le guin / co", "ursula_le_guin@gmail.com"),
        ("Ursula", ""),
        ("Ursula", "definitely-not-an-email"),
        ("Ursula", "@domain.com"),
    ];
    for (name, email) in cases {
        let mut store = SubscriberStore::new();
        let mut outbox = Outbox::new(Vec::new());

        let outcome = subscribes(form(name, email), &mut store, &client(), &mut outbox, &base_url());

        match outcome {
            Err(error @ SubscribeError::ValidationError(_)) => {
                assert_eq!(error.status_code(), 400)
            }
            other => panic!("{:?} for {:?} {:?}", other, name, email),
        }
        assert!(store.subscribers().is_empty());
        assert!(store.tokens().is_empty());
        assert!(outbox.attempts().is_empty());
    }
}

#[test]
fn a_bad_name_is_told_of_before_a_bad_email() {
    assert_eq!(
        parse_subscriber(form("(", "nothing")).unwrap_err(),
        "( is not a valid subscriber name"
    );
    assert_eq!(
        parse_subscriber(form("Ursula", "nothing")).unwrap_err(),
        "nothing is not valid subscriber email"
    );
    let subscriber = parse_subscriber(form("Ursula", "ursula@domain.com")).unwrap();
    assert_eq!(subscriber.name.as_ref(), "Ursula");
    assert_eq!(subscriber.email.as_ref(), "ursula@domain.com");
}

#[test]
fn subscribe_fails_if_the_email_cannot_be_sent_but_the_subscriber_stays() {
    let mut store = SubscriberStore::new();
    let mut outbox = Outbox::new(vec!["ursula_le_guin@gmail.com".to_string()]);

    let outcome = subscribes(
        form("le guin", "ursula_le_guin@gmail.com"),
        &mut store,
        &client(),
        &mut outbox,
        &base_url(),
    );

    match outcome {
        Err(error @ SubscribeError::SendEmailError(_)) => {
            assert_eq!(error.status_code(), 500);
            assert_eq!(error.to_string(), "Failed to send a confirmation email");
        }
        other => panic!("{:?}", other),
    }
    assert_eq!(store.subscribers().len(), 1);
    assert_eq!(store.subscribers()[0].status, SubscriberStatus::PendingConfirmation);
    assert_eq!(store.tokens().len(), 1);
    assert_eq!(outbox.attempts().len(), 1);
    assert!(!outbox.attempts()[0].delivered);
}

#[test]
fn subscribing_twice_keeps_both_registrations_and_both_tokens() {
    let mut store = SubscriberStore::new();
    let mut outbox = Outbox::new(Vec::new());

    for _ in 0..2 {
        subscribes(
            form("le guin", "ursula_le_guin@gmail.com"),
            &mut store,
            &client(),
            &mut outbox,
            &base_url(),
        )
        .unwrap();
    }

    assert_eq!(store.subscribers().len(), 2);
    assert_eq!(store.tokens().len(), 2);
    assert_ne!(store.subscribers()[0].id, store.subscribers()[1].id);
    assert_ne!(store.tokens()[0].subscription_token, store.tokens()[1].subscription_token);
    assert_eq!(store.tokens()[0].subscriber_id, store.subscribers()[0].id);
    assert_eq!(store.tokens()[1].subscriber_id, store.subscribers()[1].id);
}

#[test]
fn a_token_is_25_letters_and_digits() {
    for _ in 0..50 {
        let token = generate_subscription_token();
        assert_eq!(token.chars().count(), 25);
        assert!(token.chars().all(|c| c.is_ascii_alphanumeric()));
    }
}

#[test]
fn tokens_differ_from_one_another() {
    let first = generate_subscription_token();
    let second = generate_subscription_token();

    assert_ne!(first, second);
}

#[test]
fn a_subscriber_is_inserted_pending_under_a_random_uuid() {
    let store = SubscriberStore::new();
    let mut transaction = store.begin().unwrap();
    let subscriber = parse_subscriber(form("Ursula", "ursula@domain.com")).unwrap();

    let id = insert_subscriber(&mut transaction, &subscriber).unwrap();
    let other = insert_subscriber(&mut transaction, &subscriber).unwrap();
    store_token(&mut transaction, id, "abcdefghijklmnopqrstuvwxy").unwrap();

    assert_ne!(id, other);
    assert_eq!((id >> 76) & 0xf, 4);
    assert_eq!((id >> 62) & 0x3, 2);
    assert!(store.subscribers().is_empty());

    let mut store = store;
    store.commit(transaction).unwrap();
    assert_eq!(store.subscribers().len(), 2);
    assert_eq!(store.subscribers()[0].id, id);
    assert_eq!(store.subscribers()[0].status, SubscriberStatus::PendingConfirmation);
    assert!(store.subscribers()[0].subscribed_at > 1_600_000_000_000_000);
    assert_eq!(store.subscribers()[1].id, other);
    assert_eq!(store.tokens().len(), 1);
    assert_eq!(store.tokens()[0].subscriber_id, id);
    assert_eq!(store.tokens()[0].subscription_token, "abcdefghijklmnopqrstuvwxy");
}

#[test]
fn a_pending_row_holds_what_it_is_given() {
    let subscriber = parse_subscriber(form("Ursula", "ursula@domain.com")).unwrap();

    let row = pending_subscriber(17, 1_700_000_000_000_000, &subscriber);

    assert_eq!(row.id, 17);
    assert_eq!(row.subscribed_at, 1_700_000_000_000_000);
    assert_eq!(row.email, "ursula@domain.com");
    assert_eq!(row.name, "Ursula");
    assert_eq!(row.status, SubscriberStatus::PendingConfirmation);
}

#[test]
fn the_confirmation_email_is_composed_for_the_subscriber() {
    let subscriber = parse_subscriber(form("Ursula", "ursula@domain.com")).unwrap();

    let request = compose_confirmation_email(&client(), &subscriber, "https://news.test", "TOKEN");

    assert_eq!(request.to, "ursula@domain.com");
    assert_eq!(
        request.text_body,
        "Welcome to our newsletter!\nVisit https://news.test/subscribes/confirm?subscription_token=TOKEN to confirm your subscription."
    );
    assert_eq!(
        request.html_body,
        "Welcome to our newsletter!<br />Click <a href=\"https://news.test/subscribes/confirm?subscription_token=TOKEN\">here</a> to confirm your subscription."
    );
}

#[test]
fn the_confirmation_email_goes_through_the_outbox() {
    let subscriber = parse_subscriber(form("Ursula", "ursula@domain.com")).unwrap();
    let mut outbox = Outbox::new(Vec::new());

    let outcome =
        send_confirmation_email(&client(), &mut outbox, &subscriber, "https://news.test", "TOKEN");

    assert!(outcome.is_ok());
    assert_eq!(outbox.attempts().len(), 1);
    assert_eq!(outbox.attempts()[0].request.to, "ursula@domain.com");
}

#[test]
fn every_error_has_its_status_and_its_message() {
    let cause = || "connection refused".to_string();
    let cases = [
        (SubscribeError::ValidationError("x is not a valid subscriber name".to_string()), 400, "x is not a valid subscriber name"),
        (SubscribeError::PoolError(cause()), 500, "Failed to acquire a Postgres connection from pool"),
        (SubscribeError::InsertSubscriberError(cause()), 500, "Failed to insert new subscriber in the database"),
        (SubscribeError::TransactionCommitError(cause()), 500, "Failed to commit SQL transaction to store a new subscriber"),
        (SubscribeError::StoreTokenError(StoreTokenError(cause())), 500, "Failed to store confirmation token for a new subscriber"),
        (SubscribeError::SendEmailError(cause()), 500, "Failed to send a confirmation email"),
    ];
    for (error, status, message) in cases {
        assert_eq!(error.status_code(), status);
        assert_eq!(error.to_string(), message);
    }
    assert_eq!(
        StoreTokenError(cause()).to_string(),
        "A database error was encountered while trying to store a subscription token"
    );
}

#[test]
fn an_error_is_reported_with_its_causes() {
    let causes = vec!["the token is taken".to_string(), "connection reset".to_string()];

    assert_eq!(
        error_chain_fmt("Failed to store confirmation token for a new subscriber", &causes),
        "Failed to store confirmation token for a new subscriber\n\nCaused by:\n\tthe token is taken\nCaused by:\n\tconnection reset\n"
    );
    assert_eq!(error_chain_fmt("Plain", &Vec::new()), "Plain\n\n");
}

#[test]
fn subscribe_fails_and_writes_nothing_where_the_store_fails() {
    let cases = [
        (StoreOperation::Begin, "Failed to acquire a Postgres connection from pool", "Failed to begin a transaction"),
        (StoreOperation::InsertSubscriber, "Failed to insert new subscriber in the database", "Failed to insert a subscriber"),
        (StoreOperation::StoreToken, "Failed to store confirmation token for a new subscriber", "Failed to insert a subscription token"),
        (StoreOperation::Commit, "Failed to commit SQL transaction to store a new subscriber", "Failed to commit the transaction"),
    ];
    for (operation, message, cause) in cases {
        let mut store = SubscriberStore::new();
        subscribes(form("first", "first@domain.com"), &mut store, &client(), &mut Outbox::new(Vec::new()), &base_url())
            .unwrap();
        store.fail_on(Some(operation));
        let mut outbox = Outbox::new(Vec::new());

        let error = subscribes(
            form("le guin", "ursula_le_guin@gmail.com"),
            &mut store,
            &client(),
            &mut outbox,
            &base_url(),
        )
        .unwrap_err();

        assert_eq!(error.status_code(), 500);
        assert_eq!(error.to_string(), message);
        let told = match error {
            SubscribeError::PoolError(told) => told,
            SubscribeError::InsertSubscriberError(told) => told,
            SubscribeError::StoreTokenError(StoreTokenError(told)) => told,
            SubscribeError::TransactionCommitError(told) => told,
            other => panic!("{:?}", other),
        };
        assert_eq!(told, cause);
        assert_eq!(store.subscribers().len(), 1);
        assert_eq!(store.subscribers()[0].email, "first@domain.com");
        assert_eq!(store.tokens().len(), 1);
        assert!(outbox.attempts().is_empty());
    }
}

#[test]
fn subscribe_goes_through_where_the_store_fails_at_something_else() {
    for operation in [
        StoreOperation::GetSubscriberIdFromToken,
        StoreOperation::ConfirmSubscriber,
        StoreOperation::GetConfirmedSubscribers,
    ] {
        let mut store = SubscriberStore::new();
        store.fail_on(Some(operation));
        let mut outbox = Outbox::new(Vec::new());

        let outcome = subscribes(
            form("le guin", "ursula_le_guin@gmail.com"),
            &mut store,
            &client(),
            &mut outbox,
            &base_url(),
        );

        assert!(outcome.is_ok());
        assert_eq!(store.subscribers().len(), 1);
        assert_eq!(store.tokens().len(), 1);
        assert_eq!(outbox.attempts().len(), 1);
    }
}

#[test]
fn a_failing_transaction_keeps_what_it_held() {
    let mut store = SubscriberStore::new();
    store.fail_on(Some(StoreOperation::StoreToken));
    let mut transaction = store.begin().unwrap();
    let subscriber = parse_subscriber(form("Ursula", "ursula@domain.com")).unwrap();

    let id = insert_subscriber(&mut transaction, &subscriber).unwrap();
    let error = store_token(&mut transaction, id, "abcdefghijklmnopqrstuvwxy").unwrap_err();
    store.commit(transaction).unwrap();

    assert_eq!(error.0, "Failed to insert a subscription token");
    assert_eq!(store.subscribers().len(), 1);
    assert!(store.tokens().is_empty());
}
