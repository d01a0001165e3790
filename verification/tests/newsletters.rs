use base64::Engine;
use zero2prod::authentication::User;
use zero2prod::domains::SubscriberEmail;
use zero2prod::email_client::{EmailClient, Outbox};
use zero2prod::routes::{
    confirm, confirmed_subscribers_from, get_confirmed_subscriber, publish_newsletter, subscribes,
    BodyData, Content, CredentialCheck, DeliveryStep, FormData, Parameters, PublishError,
};
use zero2prod::startups::ApplicationBaseUrl;
use zero2prod::store::{StoreOperation, Subscriber, SubscriberStatus, SubscriberStore};

fn basic(username: &str, password: &str) -> Vec<u8> {
    let encoded = base64::engine::general_purpose::STANDARD
        .encode(format!("{}:{}", username, password));
    format!("Basic {}", encoded).into_bytes()
}

fn operators() -> Vec<User> {
    vec![User {
        user_id: 77,
        username: "admin".to_string(),
        password: "everythinghastostartsomewhere".to_string(),
    }]
}

fn client() -> EmailClient {
    EmailClient::new(
        "http://mail.test".to_string(),
        SubscriberEmail::parse("news@domain.com".to_string()).unwrap(),
        "secret-token".to_string(),
        10_000,
    )
}

fn issue() -> BodyData {
    BodyData {
        title: "Newsletter title".to_string(),
        content: Content {
            text: "Newsletter body as plain text".to_string(),
            html: "<p>Newsletter body as HTML</p>".to_string(),
        },
    }
}

/// A store with the given subscribers, of whom the first `confirmed` have
/// confirmed.
fn store_with(emails: &[&str], confirmed: usize) -> SubscriberStore {
    let mut store = SubscriberStore::new();
    let mut outbox = Outbox::new(Vec::new());
    for email in emails {
        subscribes(
            FormData { name: "subscriber".to_string(), email: email.to_string() },
            &mut store,
            &client(),
            &mut outbox,
            &ApplicationBaseUrl("http://127.0.0.1".to_string()),
        )
        .unwrap();
    }
    for i in 0..confirmed {
        let token = store.tokens()[i].subscription_token.clone();
        assert_eq!(confirm(&Parameters { subscription_token: token }, &mut store).status, 200);
    }
    store
}

fn recipients(outbox: &Outbox) -> Vec<(String, bool)> {
    outbox.attempts().iter().map(|a| (a.request.to.clone(), a.delivered)).collect()
}

#[test]
fn newsletters_are_delivered_to_confirmed_subscribers() {
    let store = store_with(&["a@domain.com", "b@domain.com", "c@domain.com", "pending@domain.com"], 3);
    let mut outbox = Outbox::new(Vec::new());
    let header = basic("admin", "everythinghastostartsomewhere");

    let outcome =
        publish_newsletter(issue(), &operators(), &store, &client(), &mut outbox, Some(&header));

    assert!(outcome.is_ok());
    assert_eq!(
        recipients(&outbox),
        vec![
            ("a@domain.com".to_string(), true),
            ("b@domain.com".to_string(), true),
            ("c@domain.com".to_string(), true)
        ]
    );
    for attempt in outbox.attempts().iter() {
        assert_eq!(attempt.request.from, "news@domain.com");
        assert_eq!(attempt.request.subject, "Newsletter title");
        assert_eq!(attempt.request.html_body, "<p>Newsletter body as HTML</p>");
        assert_eq!(attempt.request.text_body, "Newsletter body as plain text");
    }
}

#[test]
fn newsletters_are_not_delivered_to_unconfirmed_subscribers() {
    let store = store_with(&["pending@domain.com"], 0);
    let mut outbox = Outbox::new(Vec::new());
    let header = basic("admin", "everythinghastostartsomewhere");

    let outcome =
        publish_newsletter(issue(), &operators(), &store, &client(), &mut outbox, Some(&header));

    assert!(outcome.is_ok());
    assert!(outbox.attempts().is_empty());
}

#[test]
fn a_wrong_password_is_rejected_with_a_challenge_and_sends_nothing() {
    let store = store_with(&["a@domain.com", "b@domain.com", "c@domain.com"], 3);
    let mut outbox = Outbox::new(Vec::new());
    let header = basic("admin", "a-wrong-password");

    let error =
        publish_newsletter(issue(), &operators(), &store, &client(), &mut outbox, Some(&header))
            .unwrap_err();

    match &error {
        PublishError::AuthError(reason) => assert_eq!(reason, "Invalid username or password."),
        other => panic!("{:?}", other),
    }
    assert_eq!(error.to_string(), "Authentication failed");
    let response = error.error_response();
    assert_eq!(response.status, 401);
    assert_eq!(response.www_authenticate.as_deref(), Some("Basic realm=\"publish\""));
    assert!(outbox.attempts().is_empty());
}

#[test]
fn an_unknown_user_is_rejected_like_a_wrong_password() {
    let store = store_with(&["a@domain.com"], 1);
    let mut outbox = Outbox::new(Vec::new());
    let header = basic("nobody", "everythinghastostartsomewhere");

    let error =
        publish_newsletter(issue(), &operators(), &store, &client(), &mut outbox, Some(&header))
            .unwrap_err();

    match &error {
        PublishError::AuthError(reason) => assert_eq!(reason, "Invalid username or password."),
        other => panic!("{:?}", other),
    }
    assert!(outbox.attempts().is_empty());
}

#[test]
fn requests_missing_authorization_are_rejected() {
    let store = store_with(&["a@domain.com"], 1);
    let mut outbox = Outbox::new(Vec::new());

    let error = publish_newsletter(issue(), &operators(), &store, &client(), &mut outbox, None)
        .unwrap_err();

    match &error {
        PublishError::AuthError(reason) => {
            assert_eq!(reason, "The 'Authorization' header was missing")
        }
        other => panic!("{:?}", other),
    }
    let response = error.error_response();
    assert_eq!(response.status, 401);
    assert_eq!(response.www_authenticate.as_deref(), Some("Basic realm=\"publish\""));
    assert!(outbox.attempts().is_empty());
}

#[test]
fn a_failed_delivery_aborts_the_fan_out() {
    let store = store_with(&["a@domain.com", "b@domain.com", "c@domain.com"], 3);
    let mut outbox = Outbox::new(vec!["b@domain.com".to_string()]);
    let header = basic("admin", "everythinghastostartsomewhere");

    let error =
        publish_newsletter(issue(), &operators(), &store, &client(), &mut outbox, Some(&header))
            .unwrap_err();

    match &error {
        PublishError::UnexpectedError(reason) => assert_eq!(
            reason,
            "Failed to send newsletters issue to b@domain.com: b@domain.com is undeliverable"
        ),
        other => panic!("{:?}", other),
    }
    let response = error.error_response();
    assert_eq!(response.status, 500);
    assert!(response.www_authenticate.is_none());
    assert_eq!(
        recipients(&outbox),
        vec![("a@domain.com".to_string(), true), ("b@domain.com".to_string(), false)]
    );
}

#[test]
fn publishing_again_sends_again_to_those_already_served() {
    let store = store_with(&["a@domain.com", "b@domain.com"], 2);
    let mut outbox = Outbox::new(vec!["b@domain.com".to_string()]);
    let header = basic("admin", "everythinghastostartsomewhere");

    for _ in 0..2 {
        let outcome =
            publish_newsletter(issue(), &operators(), &store, &client(), &mut outbox, Some(&header));
        assert!(outcome.is_err());
    }

    assert_eq!(
        recipients(&outbox),
        vec![
            ("a@domain.com".to_string(), true),
            ("b@domain.com".to_string(), false),
            ("a@domain.com".to_string(), true),
            ("b@domain.com".to_string(), false)
        ]
    );
}

#[test]
fn a_stored_address_that_is_none_is_passed_over() {
    let mut store = SubscriberStore::new();
    let mut transaction = store.begin().unwrap();
    for (id, email, status) in [
        (1u128, "a@domain.com", SubscriberStatus::Confirmed),
        (2, "not-an-address", SubscriberStatus::Confirmed),
        (3, "p@domain.com", SubscriberStatus::PendingConfirmation),
        (4, "c@domain.com", SubscriberStatus::Confirmed),
    ] {
        transaction
            .insert_subscriber(Subscriber {
                id,
                email: email.to_string(),
                name: "subscriber".to_string(),
                subscribed_at: 0,
                status,
            })
            .unwrap();
    }
    store.commit(transaction).unwrap();
    let mut outbox = Outbox::new(Vec::new());
    let header = basic("admin", "everythinghastostartsomewhere");

    assert_eq!(
        store.confirmed_subscribers().unwrap(),
        vec![
            (1, "a@domain.com".to_string()),
            (2, "not-an-address".to_string()),
            (4, "c@domain.com".to_string())
        ]
    );
    let entries = get_confirmed_subscriber(&store).unwrap();
    assert_eq!(entries.len(), 3);
    assert_eq!(entries[0].as_ref().unwrap().id, 1);
    assert_eq!(entries[2].as_ref().unwrap().id, 4);
    assert_eq!(entries[0].as_ref().unwrap().email.as_ref(), "a@domain.com");
    assert_eq!(
        entries[1].as_ref().unwrap_err(),
        "not-an-address is not valid subscriber email"
    );
    assert_eq!(entries[2].as_ref().unwrap().email.as_ref(), "c@domain.com");

    let outcome =
        publish_newsletter(issue(), &operators(), &store, &client(), &mut outbox, Some(&header));

    assert!(outcome.is_ok());
    assert_eq!(
        recipients(&outbox),
        vec![("a@domain.com".to_string(), true), ("c@domain.com".to_string(), true)]
    );
}

#[test]
fn a_publication_is_decided_step_by_step() {
    let header = basic("admin", "everythinghastostartsomewhere");

    let check = CredentialCheck::begin(issue(), Some(&header)).unwrap();
    assert_eq!(check.credentials().username, "admin");
    assert_eq!(check.credentials().password, "everythinghastostartsomewhere");

    let authorized = check.decide(Ok(Some(77))).unwrap();
    assert_eq!(authorized.operator(), 77);

    let rows = vec![
        (11, "a@domain.com".to_string()),
        (12, "nothing".to_string()),
        (13, "b@domain.com".to_string()),
    ];
    let entries = confirmed_subscribers_from(&rows);
    assert_eq!(entries[0].as_ref().unwrap().id, 11);
    assert_eq!(entries[2].as_ref().unwrap().id, 13);
    let mut delivery = authorized.deliver_to(Ok(entries)).unwrap();
    assert_eq!(delivery.body().title, "Newsletter title");

    match delivery.next() {
        DeliveryStep::Send(recipient) => assert_eq!(recipient.as_ref(), "a@domain.com"),
        other => panic!("{:?}", other),
    }
    match delivery.next() {
        DeliveryStep::Skip(reason) => assert_eq!(reason, "nothing is not valid subscriber email"),
        other => panic!("{:?}", other),
    }
    let recipient = match delivery.next() {
        DeliveryStep::Send(recipient) => recipient,
        other => panic!("{:?}", other),
    };
    assert_eq!(recipient.as_ref(), "b@domain.com");
    assert!(matches!(delivery.next(), DeliveryStep::Done));
    assert!(matches!(delivery.next(), DeliveryStep::Done));

    match delivery.abort(&recipient, "timed out") {
        PublishError::UnexpectedError(reason) => {
            assert_eq!(reason, "Failed to send newsletters issue to b@domain.com: timed out")
        }
        other => panic!("{:?}", other),
    }
}

#[test]
fn a_publication_ends_where_the_store_fails() {
    let header = basic("admin", "everythinghastostartsomewhere");

    let check = CredentialCheck::begin(issue(), Some(&header)).unwrap();
    match check.decide(Err("connection reset".to_string())).unwrap_err() {
        PublishError::UnexpectedError(reason) => assert_eq!(
            reason,
            "Failed to perform a query to validate auth credentials.: connection reset"
        ),
        other => panic!("{:?}", other),
    }

    let check = CredentialCheck::begin(issue(), Some(&header)).unwrap();
    match check.decide(Ok(None)).unwrap_err() {
        PublishError::AuthError(reason) => assert_eq!(reason, "Invalid username or password."),
        other => panic!("{:?}", other),
    }

    let check = CredentialCheck::begin(issue(), Some(&header)).unwrap();
    let authorized = check.decide(Ok(Some(1))).unwrap();
    match authorized.deliver_to(Err("connection reset".to_string())).unwrap_err() {
        PublishError::UnexpectedError(reason) => assert_eq!(reason, "connection reset"),
        other => panic!("{:?}", other),
    }

    match CredentialCheck::begin(issue(), Some(b"Bearer token")).unwrap_err() {
        PublishError::AuthError(reason) => {
            assert_eq!(reason, "The authorization scheme was not 'Basic'.")
        }
        other => panic!("{:?}", other),
    }
}

#[test]
fn nothing_is_sent_where_the_subscribers_cannot_be_read() {
    let mut store = store_with(&["a@domain.com", "b@domain.com"], 2);
    store.fail_on(Some(StoreOperation::GetConfirmedSubscribers));
    let mut outbox = Outbox::new(Vec::new());
    let header = basic("admin", "everythinghastostartsomewhere");

    let error =
        publish_newsletter(issue(), &operators(), &store, &client(), &mut outbox, Some(&header))
            .unwrap_err();

    match &error {
        PublishError::UnexpectedError(reason) => {
            assert_eq!(reason, "Failed to read the subscribers")
        }
        other => panic!("{:?}", other),
    }
    assert_eq!(error.error_response().status, 500);
    assert!(outbox.attempts().is_empty());
    assert!(get_confirmed_subscriber(&store).is_err());
}

#[test]
fn an_empty_username_publishes_nothing_even_where_such_an_account_exists() {
    let store = store_with(&["a@domain.com"], 1);
    let mut outbox = Outbox::new(Vec::new());
    let accounts =
        vec![User { user_id: 9, username: "".to_string(), password: "pw".to_string() }];

    let error = publish_newsletter(
        issue(),
        &accounts,
        &store,
        &client(),
        &mut outbox,
        Some(b"Basic OnB3"),
    )
    .unwrap_err();

    match &error {
        PublishError::AuthError(reason) => {
            assert_eq!(reason, "A username must be provided in 'Basic' auth.")
        }
        other => panic!("{:?}", other),
    }
    let response = error.error_response();
    assert_eq!(response.status, 401);
    assert_eq!(response.www_authenticate.as_deref(), Some("Basic realm=\"publish\""));
    assert!(outbox.attempts().is_empty());
}
