use crate::domains::{
    grapheme_count, has_forbidden_character, is_blank, is_email_address, is_valid_name,
    NewSubscriber, SubscriberEmail, SubscriberName, MAX_NAME_GRAPHEMES,
};
use crate::email_client::{AttemptText, EmailClient, EmailText, Outbox, SendEmailRequest};
use crate::routes::response::{BAD_REQUEST, INTERNAL_SERVER_ERROR};
use crate::routes::registration::RegistrationPhase;
use crate::startups::ApplicationBaseUrl;
use crate::store::{
    outcome_of, StoreOperation, Subscriber, SubscriberRow, SubscriberStatus, SubscriberStore,
    SubscriptionToken, Tables, TokenRow, Transaction,
};
use crate::text::push_char;
use rand::distributions::Alphanumeric;
use rand::Rng;
use vstd::prelude::*;
use vstd::string::StringExecFns;

verus! {

/// How many characters a confirmation token has.
pub const TOKEN_LENGTH: usize = 25;

/// What a visitor fills in to register.
#[derive(Debug)]
pub struct FormData {
    pub email: String,
    pub name: String,
}

/// The confirmation token of a new subscriber could not be stored. Holds the
/// reason.
#[derive(Debug)]
pub struct StoreTokenError(pub String);

/// Why a registration failed.
#[derive(Debug)]
pub enum SubscribeError {
    /// The name or the address was rejected. Holds what to tell the visitor.
    ValidationError(String),
    /// No transaction could be opened. Holds the reason.
    PoolError(String),
    /// The subscriber could not be written. Holds the reason.
    InsertSubscriberError(String),
    /// The transaction could not be committed. Holds the reason.
    TransactionCommitError(String),
    /// The confirmation token could not be written.
    StoreTokenError(StoreTokenError),
    /// The confirmation email could not be sent. Holds the reason.
    SendEmailError(String),
}

impl StoreTokenError {
    /// What this error says of itself.
    pub fn to_string(&self) -> (r: String)
        ensures
            r@ == "A database error was encountered while trying to store a subscription token"@,
    {
        String::from_str(
            "A database error was encountered while trying to store a subscription token",
        )
    }
}

impl SubscribeError {
    pub open spec fn status(self) -> u16 {
        match self {
            SubscribeError::ValidationError(_) => BAD_REQUEST,
            _ => INTERNAL_SERVER_ERROR,
        }
    }

    pub open spec fn text(self) -> Seq<char> {
        match self {
            SubscribeError::ValidationError(reason) => reason@,
            SubscribeError::PoolError(_) => "Failed to acquire a Postgres connection from pool"@,
            SubscribeError::InsertSubscriberError(_) =>
                "Failed to insert new subscriber in the database"@,
            SubscribeError::TransactionCommitError(_) =>
                "Failed to commit SQL transaction to store a new subscriber"@,
            SubscribeError::StoreTokenError(_) =>
                "Failed to store confirmation token for a new subscriber"@,
            SubscribeError::SendEmailError(_) => "Failed to send a confirmation email"@,
        }
    }

    /// The status of the answer that tells the client of this error: the
    /// client's fault for rejected input, the server's for anything else.
    pub fn status_code(&self) -> (status: u16)
        ensures
            status == self.status(),
    {
        match self {
            SubscribeError::ValidationError(_) => BAD_REQUEST,
            SubscribeError::PoolError(_)
            | SubscribeError::InsertSubscriberError(_)
            | SubscribeError::TransactionCommitError(_)
            | SubscribeError::StoreTokenError(_)
            | SubscribeError::SendEmailError(_) => INTERNAL_SERVER_ERROR,
        }
    }

    /// What this error says of itself.
    pub fn to_string(&self) -> (r: String)
        ensures
            r@ == self.text(),
    {
        match self {
            SubscribeError::ValidationError(reason) => reason.clone(),
            SubscribeError::PoolError(_) => String::from_str(
                "Failed to acquire a Postgres connection from pool",
            ),
            SubscribeError::InsertSubscriberError(_) => String::from_str(
                "Failed to insert new subscriber in the database",
            ),
            SubscribeError::TransactionCommitError(_) => String::from_str(
                "Failed to commit SQL transaction to store a new subscriber",
            ),
            SubscribeError::StoreTokenError(_) => String::from_str(
                "Failed to store confirmation token for a new subscriber",
            ),
            SubscribeError::SendEmailError(_) => String::from_str(
                "Failed to send a confirmation email",
            ),
        }
    }
}

/// What [`parse_subscriber`] makes of a name and an address: the name is
/// looked at first, so a bad name is what is told of even where the address
/// is bad too.
pub open spec fn parsed(name: Seq<char>, email: Seq<char>) -> Result<
    (Seq<char>, Seq<char>),
    Seq<char>,
> {
    if !is_valid_name(name) {
        Err(name + " is not a valid subscriber name"@)
    } else if !is_email_address(email) {
        Err(email + " is not valid subscriber email"@)
    } else {
        Ok((name, email))
    }
}

/// Checks what a visitor filled in.
pub fn parse_subscriber(form: FormData) -> (r: Result<NewSubscriber, String>)
    ensures
        match (parsed(form.name@, form.email@), r) {
            (Ok((name, email)), Ok(subscriber)) => subscriber.name@ == name && subscriber.email@
                == email,
            (Err(reason), Err(message)) => message@ == reason,
            _ => false,
        },
{
    let name = match SubscriberName::parse(form.name) {
        Ok(name) => name,
        Err(message) => { return Err(message); },
    };
    let email = match SubscriberEmail::parse(form.email) {
        Ok(email) => email,
        Err(message) => { return Err(message); },
    };
    Ok(NewSubscriber { name, email })
}

/// The letters and digits of ASCII.
pub open spec fn is_alphanumeric(c: char) -> bool {
    ('A' <= c <= 'Z') || ('a' <= c <= 'z') || ('0' <= c <= '9')
}

/// A confirmation token is [`TOKEN_LENGTH`] letters and digits.
pub open spec fn is_subscription_token(token: Seq<char>) -> bool {
    &&& token.len() == TOKEN_LENGTH
    &&& forall|i: int| 0 <= i < token.len() ==> is_alphanumeric(#[trigger] token[i])
}

#[verifier::external_type_specification]
#[verifier::external_body]
pub struct ExThreadRng(rand::rngs::ThreadRng);

/// `rand::thread_rng` hands out the random generator of the current thread,
/// which the operating system seeds. Nothing is claimed of it. It panics
/// where the operating system gives no seed.
pub assume_specification[ rand::thread_rng ]() -> (rng: rand::rngs::ThreadRng)
;

/// Draws one byte from `rand::distributions::Alphanumeric` with `rng`.
///
/// Trusted: the byte is an ASCII letter or digit. Which one is left open.
#[verifier::external_body]
fn sample_alphanumeric(rng: &mut rand::rngs::ThreadRng) -> (b: u8)
    ensures
        is_alphanumeric(b as char),
{
    rng.sample(Alphanumeric)
}

/// Makes up a confirmation token: [`TOKEN_LENGTH`] letters and digits, each
/// drawn anew from the random generator of the thread.
pub fn generate_subscription_token() -> (token: String)
    ensures
        is_subscription_token(token@),
{
    let mut rng = rand::thread_rng();
    let mut token = String::new();
    let mut drawn: usize = 0;
    while drawn < TOKEN_LENGTH
        invariant
            drawn <= TOKEN_LENGTH,
            token@.len() == drawn,
            forall|i: int| 0 <= i < token@.len() ==> is_alphanumeric(#[trigger] token@[i]),
        decreases TOKEN_LENGTH - drawn,
    {
        let b = sample_alphanumeric(&mut rng);
        push_char(&mut token, b as char);
        drawn = drawn + 1;
    }
    token
}

/// The bits that mark a random (version 4) UUID of the RFC's variant.
pub open spec fn is_random_uuid(id: u128) -> bool {
    id & 0x0000_0000_0000_f000_c000_0000_0000_0000 == 0x0000_0000_0000_4000_8000_0000_0000_0000
}

/// Makes up an identifier with `uuid::Uuid::new_v4`.
///
/// Trusted: the identifier carries the version and variant bits of a random
/// UUID. The other bits are random.
#[verifier::external_body]
pub(crate) fn draw_subscriber_id() -> (id: u128)
    ensures
        is_random_uuid(id),
{
    uuid::Uuid::new_v4().as_u128()
}

/// Reads the clock with `chrono::Utc::now`: microseconds since the Unix
/// epoch. Nothing is claimed of the value. It panics where the clock of the
/// machine stands before that epoch.
#[verifier::external_body]
pub(crate) fn read_clock() -> (now: i64)
{
    chrono::Utc::now().timestamp_micros()
}

/// Whether `row` is the row of a new subscriber: pending, with the given
/// identifier, address and name.
pub open spec fn is_pending_row(row: SubscriberRow, id: u128, email: Seq<char>, name: Seq<char>) -> bool {
    &&& row.id == id
    &&& row.email == email
    &&& row.name == name
    &&& row.status == SubscriberStatus::PendingConfirmation
}

/// The row of a new subscriber, given its identifier and the time of its
/// registration.
pub fn pending_subscriber(id: u128, subscribed_at: i64, new_subscriber: &NewSubscriber) -> (row:
    Subscriber)
    ensures
        row@ == (SubscriberRow {
            id,
            email: new_subscriber.email@,
            name: new_subscriber.name@,
            subscribed_at,
            status: SubscriberStatus::PendingConfirmation,
        }),
{
    Subscriber {
        id,
        email: new_subscriber.email.as_ref().to_owned(),
        name: new_subscriber.name.as_ref().to_owned(),
        subscribed_at,
        status: SubscriberStatus::PendingConfirmation,
    }
}

/// Puts a new subscriber into `transaction`, pending, under a fresh
/// identifier and with the current time, and tells the identifier.
pub fn insert_subscriber(transaction: &mut Transaction, new_subscriber: &NewSubscriber) -> (r: Result<
    u128,
    String,
>)
    ensures
        final(transaction).failing() == old(transaction).failing(),
        outcome_of(StoreOperation::InsertSubscriber, old(transaction).failing(), r),
        final(transaction)@.subscription_tokens == old(transaction)@.subscription_tokens,
        match r {
            Ok(subscriber_id) => {
                &&& is_random_uuid(subscriber_id)
                &&& final(transaction)@.subscriptions.len() == old(transaction)@.subscriptions.len()
                    + 1
                &&& final(transaction)@.subscriptions.drop_last() == old(
                    transaction,
                )@.subscriptions
                &&& is_pending_row(
                    final(transaction)@.subscriptions.last(),
                    subscriber_id,
                    new_subscriber.email@,
                    new_subscriber.name@,
                )
            },
            Err(_) => final(transaction)@.subscriptions == old(transaction)@.subscriptions,
        },
{
    let subscriber_id = draw_subscriber_id();
    let row = pending_subscriber(subscriber_id, read_clock(), new_subscriber);
    match transaction.insert_subscriber(row) {
        Ok(_) => {
            Ok(subscriber_id)
        },
        Err(cause) => Err(cause),
    }
}

/// Puts the confirmation token of a subscriber into `transaction`.
pub fn store_token(transaction: &mut Transaction, subscriber_id: u128, subscription_token: &str) -> (r:
    Result<(), StoreTokenError>)
    ensures
        final(transaction).failing() == old(transaction).failing(),
        final(transaction)@.subscriptions == old(transaction)@.subscriptions,
        match r {
            Ok(_) => {
                &&& old(transaction).failing() != Some(StoreOperation::StoreToken)
                &&& final(transaction)@.subscription_tokens == old(
                    transaction,
                )@.subscription_tokens.push(
                    TokenRow { subscription_token: subscription_token@, subscriber_id },
                )
            },
            Err(StoreTokenError(cause)) => {
                &&& old(transaction).failing() == Some(StoreOperation::StoreToken)
                &&& cause@ == StoreOperation::StoreToken.failure()
                &&& final(transaction)@.subscription_tokens == old(
                    transaction,
                )@.subscription_tokens
            },
        },
{
    let row = SubscriptionToken { subscription_token: subscription_token.to_owned(), subscriber_id };
    match transaction.store_token(row) {
        Ok(_) => Ok(()),
        Err(cause) => Err(StoreTokenError(cause)),
    }
}

/// The link that confirms a subscription.
pub open spec fn confirmation_link(base_url: Seq<char>, subscription_token: Seq<char>) -> Seq<char> {
    base_url + "/subscribes/confirm?subscription_token="@ + subscription_token
}

/// The email that asks a new subscriber to confirm.
pub open spec fn confirmation_email(
    sender: Seq<char>,
    recipient: Seq<char>,
    base_url: Seq<char>,
    subscription_token: Seq<char>,
) -> EmailText {
    let link = confirmation_link(base_url, subscription_token);
    EmailText {
        from: sender,
        to: recipient,
        subject: "Welcome to Syamim Hazmi"@,
        html_body: "Welcome to our newsletter!<br />Click <a href=\""@ + link
            + "\">here</a> to confirm your subscription."@,
        text_body: "Welcome to our newsletter!\nVisit "@ + link
            + " to confirm your subscription."@,
    }
}

/// Composes the email that asks `new_subscriber` to confirm, with the link
/// that holds `subscription_token`.
pub fn compose_confirmation_email(
    email_client: &EmailClient,
    new_subscriber: &NewSubscriber,
    base_url: &str,
    subscription_token: &str,
) -> (request: SendEmailRequest)
    ensures
        request@ == confirmation_email(
            email_client.sender(),
            new_subscriber.email@,
            base_url@,
            subscription_token@,
        ),
{
    let confirmation_link = String::from_str(base_url).concat(
        "/subscribes/confirm?subscription_token=",
    ).concat(subscription_token);
    let plain_body = String::from_str("Welcome to our newsletter!\nVisit ").concat(
        confirmation_link.as_str(),
    ).concat(" to confirm your subscription.");
    let html_body = String::from_str("Welcome to our newsletter!<br />Click <a href=\"").concat(
        confirmation_link.as_str(),
    ).concat("\">here</a> to confirm your subscription.");
    email_client.request(
        &new_subscriber.email,
        "Welcome to Syamim Hazmi",
        html_body.as_str(),
        plain_body.as_str(),
    )
}

/// Hands the outbox the email that asks `new_subscriber` to confirm.
pub fn send_confirmation_email(
    email_client: &EmailClient,
    outbox: &mut Outbox,
    new_subscriber: &NewSubscriber,
    base_url: &str,
    subscription_token: &str,
) -> (r: Result<(), String>)
    ensures
        final(outbox).undeliverable() == old(outbox).undeliverable(),
        final(outbox).log() == old(outbox).log().push(
            AttemptText {
                request: confirmation_email(
                    email_client.sender(),
                    new_subscriber.email@,
                    base_url@,
                    subscription_token@,
                ),
                delivered: r is Ok,
            },
        ),
        match r {
            Ok(_) => !old(outbox).bounces(new_subscriber.email@),
            Err(cause) => old(outbox).bounces(new_subscriber.email@) && cause@
                == new_subscriber.email@ + " is undeliverable"@,
        },
{
    let request = compose_confirmation_email(
        email_client,
        new_subscriber,
        base_url,
        subscription_token,
    );
    outbox.send(request)
}

/// Whether `after` is `before` with one registration more: one subscriber,
/// pending, with this name and address, and one confirmation token, which
/// refers to that subscriber.
pub open spec fn registered(before: Tables, after: Tables, name: Seq<char>, email: Seq<char>) -> bool {
    &&& after.subscriptions.len() == before.subscriptions.len() + 1
    &&& after.subscriptions.drop_last() == before.subscriptions
    &&& after.subscription_tokens.len() == before.subscription_tokens.len() + 1
    &&& after.subscription_tokens.drop_last() == before.subscription_tokens
    &&& is_pending_row(
        after.subscriptions.last(),
        after.subscription_tokens.last().subscriber_id,
        email,
        name,
    )
    &&& is_random_uuid(after.subscriptions.last().id)
    &&& is_subscription_token(after.subscription_tokens.last().subscription_token)
}

/// Input that is rejected for certain: a name that is blank, too long or
/// holds a forbidden character, and an address that is empty, holds no `@`
/// or has nothing in front of it.
pub open spec fn plainly_invalid(name: Seq<char>, email: Seq<char>) -> bool {
    ||| is_blank(name)
    ||| grapheme_count(name) > MAX_NAME_GRAPHEMES
    ||| has_forbidden_character(name)
    ||| email.len() == 0
    ||| !email.contains('@')
    ||| email[0] == '@'
}

/// Input that is plainly invalid is rejected, so that a registration with
/// it writes nothing: see [`subscribes`].
pub proof fn invalid_input_is_rejected(name: Seq<char>, email: Seq<char>)
    requires
        plainly_invalid(name, email),
    ensures
        parsed(name, email) is Err,
{
}

/// A registration under an identifier that is new to the store leaves
/// exactly one subscriber with that identifier, who is pending, and exactly
/// one confirmation token that refers to that subscriber.
pub proof fn registration_adds_one_of_each(
    before: Tables,
    after: Tables,
    name: Seq<char>,
    email: Seq<char>,
)
    requires
        registered(before, after, name, email),
        before.count_subscribers(after.subscriptions.last().id) == 0,
        before.count_tokens_of(after.subscriptions.last().id) == 0,
    ensures
        after.count_subscribers(after.subscriptions.last().id) == 1,
        after.count_tokens_of(after.subscriptions.last().id) == 1,
        after.subscriptions.last().status == SubscriberStatus::PendingConfirmation,
        after.subscription_tokens.last().subscriber_id == after.subscriptions.last().id,
{
}

/// The piece of work of a registration that a store cannot do of which
/// `failing` is out of order, if it is one that a registration needs.
pub open spec fn interrupted_at(failing: Option<StoreOperation>) -> Option<RegistrationPhase> {
    match failing {
        Some(StoreOperation::Begin) => Some(RegistrationPhase::Begin),
        Some(StoreOperation::InsertSubscriber) => Some(RegistrationPhase::InsertSubscriber),
        Some(StoreOperation::StoreToken) => Some(RegistrationPhase::StoreToken),
        Some(StoreOperation::Commit) => Some(RegistrationPhase::Commit),
        _ => None,
    }
}

/// Registers a visitor: checks what was filled in, writes the subscriber and
/// a fresh confirmation token to the store in one transaction, and then
/// sends the email with the confirmation link.
///
/// Rejected input writes nothing and sends nothing. So does a store that
/// fails, at whichever piece of the work: the subscriber and the token are
/// written both or neither. The email goes out only once the transaction is
/// committed; if it then fails, the subscriber stays registered and pending.
pub fn subscribes(
    form: FormData,
    store: &mut SubscriberStore,
    email_client: &EmailClient,
    outbox: &mut Outbox,
    base_url: &ApplicationBaseUrl,
) -> (r: Result<(), SubscribeError>)
    ensures
        final(store).failing() == old(store).failing(),
        final(outbox).undeliverable() == old(outbox).undeliverable(),
        match parsed(form.name@, form.email@) {
            Err(reason) => {
                &&& r matches Err(SubscribeError::ValidationError(message)) && message@ == reason
                &&& final(store)@ == old(store)@
                &&& final(outbox).log() == old(outbox).log()
            },
            Ok((name, email)) => match interrupted_at(old(store).failing()) {
                Some(phase) => {
                    &&& r matches Err(error) && phase.fails_with(
                        error,
                        old(store).failing()->0.failure(),
                    )
                    &&& final(store)@ == old(store)@
                    &&& final(outbox).log() == old(outbox).log()
                },
                None => {
                    &&& registered(old(store)@, final(store)@, name, email)
                    &&& final(outbox).log() == old(outbox).log().push(
                        AttemptText {
                            request: confirmation_email(
                                email_client.sender(),
                                email,
                                base_url.0@,
                                final(store)@.subscription_tokens.last().subscription_token,
                            ),
                            delivered: r is Ok,
                        },
                    )
                    &&& r is Ok == !old(outbox).bounces(email)
                    &&& r is Err ==> (r matches Err(SubscribeError::SendEmailError(cause))
                        && cause@ == email + " is undeliverable"@)
                },
            },
        },
{
    let new_subscriber = match parse_subscriber(form) {
        Ok(new_subscriber) => new_subscriber,
        Err(message) => { return Err(SubscribeError::ValidationError(message)); },
    };
    let mut transaction = match store.begin() {
        Ok(transaction) => transaction,
        Err(cause) => { return Err(SubscribeError::PoolError(cause)); },
    };
    let subscriber_id = match insert_subscriber(&mut transaction, &new_subscriber) {
        Ok(subscriber_id) => subscriber_id,
        Err(cause) => { return Err(SubscribeError::InsertSubscriberError(cause)); },
    };
    let subscription_token = generate_subscription_token();
    match store_token(&mut transaction, subscriber_id, subscription_token.as_str()) {
        Ok(_) => {},
        Err(error) => { return Err(SubscribeError::StoreTokenError(error)); },
    }
    match store.commit(transaction) {
        Ok(_) => {},
        Err(cause) => { return Err(SubscribeError::TransactionCommitError(cause)); },
    }
    proof {
        let before = old(store)@;
        let after = store@;
        assert(after.subscriptions.drop_last() =~= before.subscriptions);
        assert(after.subscription_tokens.drop_last() =~= before.subscription_tokens);
    }
    match send_confirmation_email(
        email_client,
        outbox,
        &new_subscriber,
        base_url.0.as_str(),
        subscription_token.as_str(),
    ) {
        Ok(_) => Ok(()),
        Err(cause) => Err(SubscribeError::SendEmailError(cause)),
    }
}

/// Writes an error and what caused it, cause by cause, as a report.
pub open spec fn error_chain(error: Seq<char>, causes: Seq<String>) -> Seq<char>
    decreases causes.len(),
{
    if causes.len() == 0 {
        error + "\n\n"@
    } else {
        error_chain(error, causes.drop_last()) + "Caused by:\n\t"@ + causes.last()@ + "\n"@
    }
}

/// Writes `error` and then each of `causes`, outermost first, under the
/// heading `Caused by:`.
pub fn error_chain_fmt(error: &str, causes: &Vec<String>) -> (report: String)
    ensures
        report@ == error_chain(error@, causes@),
{
    let mut report = String::from_str(error).concat("\n\n");
    let mut i: usize = 0;
    while i < causes.len()
        invariant
            i <= causes.len(),
            report@ == error_chain(error@, causes@.take(i as int)),
        decreases causes.len() - i,
    {
        assert(causes@.take(i + 1).drop_last() =~= causes@.take(i as int));
        report.append("Caused by:\n\t");
        report.append(causes[i].as_str());
        report.append("\n");
        i = i + 1;
    }
    assert(causes@.take(i as int) =~= causes@);
    report
}

} // verus!
