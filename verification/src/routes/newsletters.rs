use crate::authentication::{
    basic_authentication, header_bytes, matching_user, presented_credentials, validate_credentials,
    verdict_on_lookup, AuthError, Credentials, MalformedCredentials, User,
};
use crate::domains::{is_email_address, SubscriberEmail};
use crate::email_client::{AttemptText, EmailClient, EmailText, Outbox};
use crate::routes::response::{Response, INTERNAL_SERVER_ERROR};
use crate::search::{
    filter_map_origin, first_where, first_where_found, first_where_is, first_where_nowhere,
};
use crate::store::{
    confirmed_rows, outcome_of, StoreOperation, SubscriberRow, SubscriberStatus, SubscriberStore, Tables,
};
use vstd::prelude::*;
use vstd::string::StringExecFns;

verus! {

/// An issue of the newsletter.
#[derive(Debug)]
pub struct BodyData {
    pub title: String,
    pub content: Content,
}

/// The two forms that an issue comes in.
#[derive(Debug)]
pub struct Content {
    pub html: String,
    pub text: String,
}

/// Why an issue was not published.
#[derive(Debug)]
pub enum PublishError {
    /// The request was not made by an operator. Holds the reason.
    AuthError(String),
    /// The store or the mail service failed. Holds the reason.
    UnexpectedError(String),
}

/// A subscriber that an issue goes to.
#[derive(Debug)]
pub struct ConfirmedSubscriber {
    pub id: u128,
    pub email: SubscriberEmail,
}

impl PublishError {
    /// The challenge that goes with a request that was not authenticated.
    pub open spec fn challenge() -> Seq<char> {
        "Basic realm=\"publish\""@
    }

    pub open spec fn is_auth_error(self, reason: Seq<char>) -> bool {
        self matches PublishError::AuthError(message) && message@ == reason
    }

    pub open spec fn is_unexpected_error(self, reason: Seq<char>) -> bool {
        self matches PublishError::UnexpectedError(message) && message@ == reason
    }

    /// The answer that tells the client of this error: a challenge for the
    /// `Basic` scheme where authentication failed, a bare server error
    /// otherwise.
    pub fn error_response(&self) -> (r: Response)
        ensures
            match self {
                PublishError::UnexpectedError(_) => r.is_bare(INTERNAL_SERVER_ERROR),
                PublishError::AuthError(_) => r.is_challenge(Self::challenge()),
            },
    {
        match self {
            PublishError::UnexpectedError(_) => Response::new(INTERNAL_SERVER_ERROR),
            PublishError::AuthError(_) => Response::unauthorized("Basic realm=\"publish\""),
        }
    }

    /// What this error says of itself.
    pub fn to_string(&self) -> (r: String)
        ensures
            match self {
                PublishError::AuthError(_) => r@ == "Authentication failed"@,
                PublishError::UnexpectedError(reason) => r@ == reason@,
            },
    {
        match self {
            PublishError::AuthError(_) => String::from_str("Authentication failed"),
            PublishError::UnexpectedError(reason) => reason.clone(),
        }
    }
}

/// What is known of each confirmed subscriber that was read: the identifier
/// and the address, or why the stored address is none.
pub open spec fn entry_texts(entries: Seq<Result<ConfirmedSubscriber, String>>) -> Seq<
    Result<(u128, Seq<char>), Seq<char>>,
> {
    entries.map_values(
        |entry: Result<ConfirmedSubscriber, String>|
            match entry {
                Ok(subscriber) => Ok((subscriber.id, subscriber.email@)),
                Err(reason) => Err(reason@),
            },
    )
}

/// The entry that a confirmed subscriber gives: the identifier and the
/// address if the stored address still passes the check, the reason if it
/// does not.
pub open spec fn entry_of(row: (u128, Seq<char>)) -> Result<(u128, Seq<char>), Seq<char>> {
    if is_email_address(row.1) {
        Ok(row)
    } else {
        Err(row.1 + " is not valid subscriber email"@)
    }
}

/// Checks the addresses of the confirmed subscribers as they were read from
/// the store. One that fails the check stays in its place, as a reason.
pub fn confirmed_subscribers_from(rows: &Vec<(u128, String)>) -> (entries: Vec<
    Result<ConfirmedSubscriber, String>,
>)
    ensures
        entry_texts(entries@) == confirmed_rows(rows@).map_values(
            |row: (u128, Seq<char>)| entry_of(row),
        ),
{
    let mut entries: Vec<Result<ConfirmedSubscriber, String>> = Vec::new();
    let mut i: usize = 0;
    while i < rows.len()
        invariant
            i <= rows.len(),
            entries@.len() == i,
            forall|k: int|
                0 <= k < i ==> (match #[trigger] entries@[k] {
                    Ok(subscriber) => Ok((subscriber.id, subscriber.email@)),
                    Err(reason) => Err(reason@),
                }) == entry_of((rows@[k].0, rows@[k].1@)),
        decreases rows.len() - i,
    {
        let id = rows[i].0;
        let entry = match SubscriberEmail::parse(rows[i].1.clone()) {
            Ok(email) => Ok(ConfirmedSubscriber { id, email }),
            Err(error) => Err(error),
        };
        entries.push(entry);
        i = i + 1;
    }
    entries
}

/// Reads the confirmed subscribers from the store, in the order of their
/// rows.
pub fn get_confirmed_subscriber(store: &SubscriberStore) -> (r: Result<
    Vec<Result<ConfirmedSubscriber, String>>,
    String,
>)
    ensures
        outcome_of(StoreOperation::GetConfirmedSubscribers, store.failing(), r),
        r matches Ok(entries) ==> entry_texts(entries@)
            == store@.confirmed_subscribers().map_values(|row: (u128, Seq<char>)| entry_of(row)),
{
    let rows = match store.confirmed_subscribers() {
        Ok(rows) => rows,
        Err(cause) => { return Err(cause); },
    };
    Ok(confirmed_subscribers_from(&rows))
}

/// What a [`BodyData`] holds.
pub struct IssueText {
    pub title: Seq<char>,
    pub html: Seq<char>,
    pub text: Seq<char>,
}

impl View for BodyData {
    type V = IssueText;

    open spec fn view(&self) -> IssueText {
        IssueText { title: self.title@, html: self.content.html@, text: self.content.text@ }
    }
}

/// The addresses that an issue goes to: those of the entries that hold one,
/// in their order.
pub open spec fn recipients_of(entries: Seq<Result<(u128, Seq<char>), Seq<char>>>) -> Seq<
    Seq<char>,
> {
    entries.filter_map(
        |entry: Result<(u128, Seq<char>), Seq<char>>|
            match entry {
                Ok(row) => Some(row.1),
                Err(_) => None,
            },
    )
}

/// The email that brings `issue` to `recipient`.
pub open spec fn issue_for(sender: Seq<char>, issue: IssueText, recipient: Seq<char>) -> EmailText {
    EmailText {
        from: sender,
        to: recipient,
        subject: issue.title,
        html_body: issue.html,
        text_body: issue.text,
    }
}

/// Whether the recipient at `i` cannot be reached.
pub open spec fn bounce_at(recipients: Seq<Seq<char>>, undeliverable: Seq<Seq<char>>, i: int) -> bool {
    0 <= i < recipients.len() && undeliverable.contains(recipients[i])
}

/// The places of the recipients that cannot be reached.
pub open spec fn bounces_at(recipients: Seq<Seq<char>>, undeliverable: Seq<Seq<char>>) -> spec_fn(
    int,
) -> bool {
    |i: int| bounce_at(recipients, undeliverable, i)
}

/// The place of the first recipient that cannot be reached, if there is one.
pub open spec fn first_bounce(recipients: Seq<Seq<char>>, undeliverable: Seq<Seq<char>>) -> Option<
    int,
> {
    first_where(bounces_at(recipients, undeliverable))
}

/// The attempts that publishing `issue` makes: one for each recipient in
/// turn, up to and including the first that fails. Nobody behind a failed
/// recipient is tried.
pub open spec fn fan_out(
    sender: Seq<char>,
    issue: IssueText,
    recipients: Seq<Seq<char>>,
    undeliverable: Seq<Seq<char>>,
) -> Seq<AttemptText> {
    match first_bounce(recipients, undeliverable) {
        None => Seq::new(
            recipients.len(),
            |k: int|
                AttemptText { request: issue_for(sender, issue, recipients[k]), delivered: true },
        ),
        Some(failed) => Seq::new(
            (failed + 1) as nat,
            |k: int|
                AttemptText {
                    request: issue_for(sender, issue, recipients[k]),
                    delivered: k < failed,
                },
        ),
    }
}

/// The reason that is given when the delivery to `recipient` failed with
/// `cause`.
pub open spec fn delivery_failure(recipient: Seq<char>, cause: Seq<char>) -> Seq<char> {
    "Failed to send newsletters issue to "@ + recipient + ": "@ + cause
}

/// A request to publish whose credentials were read and are to be looked up
/// among the accounts.
#[derive(Debug)]
pub struct CredentialCheck {
    body: BodyData,
    credentials: Credentials,
}

/// A request to publish that an operator made; the confirmed subscribers are
/// to be read.
#[derive(Debug)]
pub struct Authorized {
    body: BodyData,
    user_id: u128,
}

/// An issue on its way to the confirmed subscribers, one after the other.
#[derive(Debug)]
pub struct Delivery {
    body: BodyData,
    subscribers: Vec<Result<ConfirmedSubscriber, String>>,
    cursor: usize,
}

/// What to do next for a [`Delivery`].
#[derive(Debug)]
pub enum DeliveryStep {
    /// Send the issue to this address and report a failure with
    /// [`Delivery::abort`].
    Send(SubscriberEmail),
    /// A subscriber was passed over because the stored address is none.
    /// Holds the reason, which is to be logged.
    Skip(String),
    /// Everyone was served.
    Done,
}

impl CredentialCheck {
    pub closed spec fn issue(&self) -> IssueText {
        self.body@
    }

    pub closed spec fn username(&self) -> Seq<char> {
        self.credentials.username@
    }

    pub closed spec fn password(&self) -> Seq<char> {
        self.credentials.password@
    }

    /// Takes up a request to publish `body`: reads the credentials in its
    /// `Authorization` header. Without credentials the request ends here,
    /// before any account is looked up.
    pub fn begin(body: BodyData, authorization: Option<&[u8]>) -> (r: Result<
        CredentialCheck,
        PublishError,
    >)
        ensures
            match (presented_credentials(header_bytes(authorization)), r) {
                (Ok((username, password)), Ok(check)) => check.username() == username
                    && check.password() == password && check.issue() == body@,
                (Err(error), Err(refusal)) => refusal.is_auth_error(error.message_text()),
                _ => false,
            },
    {
        match basic_authentication(authorization) {
            Ok(credentials) => Ok(CredentialCheck { body, credentials }),
            Err(error) => Err(PublishError::AuthError(error.message())),
        }
    }

    /// The credentials to look up.
    pub fn credentials(&self) -> (credentials: &Credentials)
        ensures
            credentials.username@ == self.username(),
            credentials.password@ == self.password(),
    {
        &self.credentials
    }

    /// Goes on with the outcome of the lookup: the identifier of the account
    /// with these credentials, none if there is no such account, or the
    /// reason why the accounts could not be read.
    pub fn decide(self, lookup: Result<Option<u128>, String>) -> (r: Result<Authorized, PublishError>)
        ensures
            match (lookup, r) {
                (Ok(Some(id)), Ok(authorized)) => authorized.user_id() == id && authorized.issue()
                    == self.issue(),
                (Ok(None), Err(refusal)) => refusal.is_auth_error(
                    "Invalid username or password."@,
                ),
                (Err(cause), Err(failure)) => failure.is_unexpected_error(
                    "Failed to perform a query to validate auth credentials.: "@ + cause@,
                ),
                _ => false,
            },
    {
        match lookup {
            Err(cause) => Err(
                PublishError::UnexpectedError(
                    String::from_str(
                        "Failed to perform a query to validate auth credentials.: ",
                    ).concat(cause.as_str()),
                ),
            ),
            Ok(found) => match verdict_on_lookup(found) {
                Ok(user_id) => Ok(Authorized { body: self.body, user_id }),
                Err(AuthError::InvalidCredentials(reason)) => Err(PublishError::AuthError(reason)),
                Err(AuthError::MalformedCredentials(error)) => Err(
                    PublishError::AuthError(error.message()),
                ),
                Err(AuthError::UnexpectedError(reason)) => Err(
                    PublishError::UnexpectedError(reason),
                ),
            },
        }
    }
}

impl Authorized {
    pub closed spec fn issue(&self) -> IssueText {
        self.body@
    }

    pub closed spec fn user_id(&self) -> u128 {
        self.user_id
    }

    /// The operator who publishes.
    pub fn operator(&self) -> (user_id: u128)
        ensures
            user_id == self.user_id(),
    {
        self.user_id
    }

    /// Goes on with the confirmed subscribers as they were read, or with
    /// the reason why they could not be.
    pub fn deliver_to(self, subscribers: Result<Vec<Result<ConfirmedSubscriber, String>>, String>) -> (r:
        Result<Delivery, PublishError>)
        ensures
            match (subscribers, r) {
                (Ok(entries), Ok(delivery)) => delivery.entries() == entry_texts(entries@)
                    && delivery.cursor() == 0 && delivery.issue() == self.issue(),
                (Err(cause), Err(failure)) => failure.is_unexpected_error(cause@),
                _ => false,
            },
    {
        match subscribers {
            Ok(entries) => Ok(Delivery { body: self.body, subscribers: entries, cursor: 0 }),
            Err(cause) => Err(PublishError::UnexpectedError(cause)),
        }
    }
}

impl Delivery {
    pub closed spec fn issue(&self) -> IssueText {
        self.body@
    }

    /// The confirmed subscribers, each with its address or with the reason
    /// why it has none.
    pub closed spec fn entries(&self) -> Seq<Result<(u128, Seq<char>), Seq<char>>> {
        entry_texts(self.subscribers@)
    }

    /// How many of the entries have been dealt with.
    pub closed spec fn cursor(&self) -> int {
        self.cursor as int
    }

    #[verifier::type_invariant]
    spec fn cursor_in_range(&self) -> bool {
        self.cursor <= self.subscribers@.len()
    }

    /// The issue that is being delivered.
    pub fn body(&self) -> (body: &BodyData)
        ensures
            body@ == self.issue(),
    {
        &self.body
    }

    /// Says what to do for the next subscriber and moves on to the one
    /// after.
    pub fn next(&mut self) -> (step: DeliveryStep)
        ensures
            final(self).issue() == old(self).issue(),
            final(self).entries() == old(self).entries(),
            0 <= old(self).cursor() <= old(self).entries().len(),
            if old(self).cursor() == old(self).entries().len() {
                step is Done && final(self).cursor() == old(self).cursor()
            } else {
                final(self).cursor() == old(self).cursor() + 1 && match old(self).entries()[old(
                    self,
                ).cursor()] {
                    Ok(row) => step matches DeliveryStep::Send(recipient) && recipient@
                        == row.1,
                    Err(reason) => step matches DeliveryStep::Skip(warning) && warning@ == reason,
                }
            },
    {
        proof {
            use_type_invariant(&*self);
        }
        if self.cursor == self.subscribers.len() {
            return DeliveryStep::Done;
        }
        let step = match &self.subscribers[self.cursor] {
            Ok(subscriber) => DeliveryStep::Send(subscriber.email.duplicate()),
            Err(reason) => DeliveryStep::Skip(reason.clone()),
        };
        self.cursor = self.cursor + 1;
        step
    }

    /// Ends the delivery because sending to `recipient` failed with
    /// `cause`. Whoever was not served yet is not tried.
    pub fn abort(self, recipient: &SubscriberEmail, cause: &str) -> (failure: PublishError)
        ensures
            failure.is_unexpected_error(delivery_failure(recipient@, cause@)),
    {
        let reason = String::from_str("Failed to send newsletters issue to ").concat(
            recipient.as_ref(),
        ).concat(": ").concat(cause);
        PublishError::UnexpectedError(reason)
    }
}

/// The recipients among the first `n` entries are the first of all the
/// recipients.
proof fn recipients_of_prefix(entries: Seq<Result<(u128, Seq<char>), Seq<char>>>, n: int)
    requires
        0 <= n <= entries.len(),
    ensures
        recipients_of(entries.take(n)).is_prefix_of(recipients_of(entries)),
    decreases entries.len(),
{
    if n == entries.len() {
        assert(entries.take(n) =~= entries);
    } else {
        let shorter = entries.drop_last();
        recipients_of_prefix(shorter, n);
        assert(shorter.take(n) =~= entries.take(n));
    }
}

/// One more entry adds its address to the recipients, if it holds one.
proof fn recipients_of_next(entries: Seq<Result<(u128, Seq<char>), Seq<char>>>, n: int)
    requires
        0 <= n < entries.len(),
    ensures
        recipients_of(entries.take(n + 1)) == match entries[n] {
            Ok(row) => recipients_of(entries.take(n)).push(row.1),
            Err(_) => recipients_of(entries.take(n)),
        },
{
    assert(entries.take(n + 1).drop_last() =~= entries.take(n));
}

/// What publishing `issue` to `recipients` comes to: the outbox has made
/// the attempts of [`fan_out`] and nothing else, and the publication failed
/// exactly if one of them did, with the reason of that one.
pub open spec fn published(
    before: Seq<AttemptText>,
    after: Seq<AttemptText>,
    r: Result<(), PublishError>,
    sender: Seq<char>,
    issue: IssueText,
    recipients: Seq<Seq<char>>,
    undeliverable: Seq<Seq<char>>,
) -> bool {
    &&& after == before + fan_out(sender, issue, recipients, undeliverable)
    &&& match first_bounce(recipients, undeliverable) {
        None => r is Ok,
        Some(failed) => r matches Err(failure) && failure.is_unexpected_error(
            delivery_failure(recipients[failed], recipients[failed] + " is undeliverable"@),
        ),
    }
}

/// An issue goes to confirmed subscribers only: every recipient is the
/// address of a subscriber who is confirmed, and is an email address.
pub proof fn recipients_are_confirmed(tables: Tables, k: int)
    requires
        0 <= k < recipients_of(
            tables.confirmed_subscribers().map_values(|row: (u128, Seq<char>)| entry_of(row)),
        ).len(),
    ensures
        ({
            let recipient = recipients_of(
                tables.confirmed_subscribers().map_values(|row: (u128, Seq<char>)| entry_of(row)),
            )[k];
            &&& is_email_address(recipient)
            &&& exists|i: int|
                0 <= i < tables.subscriptions.len() && (#[trigger] tables.subscriptions[i]).status
                    == SubscriberStatus::Confirmed && tables.subscriptions[i].email == recipient
        }),
{
    let confirmed = tables.confirmed_subscribers();
    let entries = confirmed.map_values(|row: (u128, Seq<char>)| entry_of(row));
    let address_of = |entry: Result<(u128, Seq<char>), Seq<char>>|
        match entry {
            Ok(row) => Some(row.1),
            Err(_) => None,
        };
    let email_of = |row: SubscriberRow|
        if row.status == SubscriberStatus::Confirmed {
            Some((row.id, row.email))
        } else {
            None
        };
    let recipient = recipients_of(entries)[k];
    filter_map_origin(entries, address_of, k);
    let e = choose|e: int| 0 <= e < entries.len() && address_of(#[trigger] entries[e]) == Some(
        recipient,
    );
    filter_map_origin(tables.subscriptions, email_of, e);
}

/// The fan-out serves the recipients in their order and stops at the first
/// failure: every attempt but the last got through, the attempt at place
/// `k` went to the recipient at place `k`, and where anyone is left out the
/// last attempt failed.
pub proof fn fan_out_stops_at_the_first_failure(
    sender: Seq<char>,
    issue: IssueText,
    recipients: Seq<Seq<char>>,
    undeliverable: Seq<Seq<char>>,
)
    ensures
        ({
            let attempts = fan_out(sender, issue, recipients, undeliverable);
            &&& attempts.len() <= recipients.len()
            &&& forall|k: int|
                0 <= k < attempts.len() ==> (#[trigger] attempts[k]).request == issue_for(
                    sender,
                    issue,
                    recipients[k],
                ) && attempts[k].delivered == !undeliverable.contains(recipients[k])
            &&& forall|k: int| 0 <= k < attempts.len() - 1 ==> (#[trigger] attempts[k]).delivered
            &&& attempts.len() < recipients.len() ==> attempts.len() > 0
                && !attempts.last().delivered
            &&& first_bounce(recipients, undeliverable) is None ==> attempts.len()
                == recipients.len()
        }),
{
    let bounces = bounces_at(recipients, undeliverable);
    if exists|at: int| 0 <= at && #[trigger] bounces(at) {
        first_where_found(bounces);
        let failed = first_bounce(recipients, undeliverable)->0;
        assert forall|k: int| 0 <= k < failed implies !undeliverable.contains(recipients[k]) by {
            assert(!bounces(k));
        }
    } else {
        assert forall|k: int| 0 <= k < recipients.len() implies !undeliverable.contains(
            recipients[k],
        ) by {
            assert(!bounces(k));
        }
    }
}

/// Publishes an issue: checks that the request comes from an operator, reads
/// the confirmed subscribers from the store and hands the outbox one email
/// for each of them in turn.
///
/// A subscriber whose stored address is none is passed over. The first
/// delivery that fails ends the publication with an error: whoever was served
/// before stays served, whoever comes after is not tried. A request without
/// valid credentials sends nothing, and so does one for which the
/// subscribers cannot be read.
pub fn publish_newsletter(
    body: BodyData,
    users: &Vec<User>,
    store: &SubscriberStore,
    email_client: &EmailClient,
    outbox: &mut Outbox,
    authorization: Option<&[u8]>,
) -> (r: Result<(), PublishError>)
    ensures
        final(outbox).undeliverable() == old(outbox).undeliverable(),
        match presented_credentials(header_bytes(authorization)) {
            Err(error) => {
                &&& final(outbox).log() == old(outbox).log()
                &&& r matches Err(refusal) && refusal.is_auth_error(error.message_text())
            },
            Ok((username, password)) => match matching_user(users@, username, password) {
                None => {
                    &&& final(outbox).log() == old(outbox).log()
                    &&& r matches Err(refusal) && refusal.is_auth_error(
                        "Invalid username or password."@,
                    )
                },
                Some(_) => if store.failing() == Some(StoreOperation::GetConfirmedSubscribers) {
                    &&& final(outbox).log() == old(outbox).log()
                    &&& r matches Err(failure) && failure.is_unexpected_error(
                        StoreOperation::GetConfirmedSubscribers.failure(),
                    )
                } else {
                    published(
                        old(outbox).log(),
                        final(outbox).log(),
                        r,
                        email_client.sender(),
                        body@,
                        recipients_of(
                            store@.confirmed_subscribers().map_values(
                                |row: (u128, Seq<char>)| entry_of(row),
                            ),
                        ),
                        old(outbox).undeliverable(),
                    )
                },
            },
        },
{
    let check = match CredentialCheck::begin(body, authorization) {
        Ok(check) => check,
        Err(refusal) => { return Err(refusal); },
    };
    let found = match validate_credentials(check.credentials(), users) {
        Ok(user_id) => Some(user_id),
        Err(_) => None,
    };
    let authorized = match check.decide(Ok(found)) {
        Ok(authorized) => authorized,
        Err(refusal) => { return Err(refusal); },
    };
    let mut delivery = match authorized.deliver_to(get_confirmed_subscriber(store)) {
        Ok(delivery) => delivery,
        Err(failure) => { return Err(failure); },
    };
    let ghost entries = delivery.entries();
    let ghost recipients = recipients_of(entries);
    let ghost undeliverable = outbox.undeliverable();
    let ghost sender = email_client.sender();
    let ghost issue = delivery.issue();
    let mut outcome: Result<(), PublishError> = Ok(());
    loop
        invariant_except_break
            delivery.entries() == entries,
            delivery.issue() == issue,
            recipients == recipients_of(entries),
            sender == email_client.sender(),
            0 <= delivery.cursor() <= entries.len(),
            outcome is Ok,
            forall|k: int|
                0 <= k < recipients_of(entries.take(delivery.cursor())).len() ==> !bounce_at(
                    recipients,
                    undeliverable,
                    k,
                ),
            outbox.log() == old(outbox).log() + Seq::new(
                recipients_of(entries.take(delivery.cursor())).len(),
                |k: int|
                    AttemptText { request: issue_for(sender, issue, recipients[k]), delivered: true },
            ),
        invariant
            outbox.undeliverable() == undeliverable,
        ensures
            published(old(outbox).log(), outbox.log(), outcome, sender, issue, recipients, undeliverable),
        decreases entries.len() - delivery.cursor(),
    {
        let ghost at = delivery.cursor();
        let ghost served = recipients_of(entries.take(at));
        match delivery.next() {
            DeliveryStep::Done => {
                proof {
                    assert(entries.take(at) =~= entries);
                    first_where_nowhere(bounces_at(recipients, undeliverable));
                }
                break ;
            },
            DeliveryStep::Skip(_) => {
                proof {
                    recipients_of_next(entries, at);
                }
            },
            DeliveryStep::Send(recipient) => {
                proof {
                    recipients_of_next(entries, at);
                    recipients_of_prefix(entries, at + 1);
                    outbox.bounces_is_membership(recipient@);
                    assert(recipients[served.len() as int] == recipient@) by {
                        assert(recipients_of(entries.take(at + 1))[served.len() as int]
                            == recipient@);
                    }
                }
                match email_client.send_email(
                    outbox,
                    &recipient,
                    delivery.body().title.as_str(),
                    delivery.body().content.html.as_str(),
                    delivery.body().content.text.as_str(),
                ) {
                    Ok(_) => {},
                    Err(cause) => {
                        proof {
                            let failed = served.len() as int;
                            first_where_is(bounces_at(recipients, undeliverable), failed);
                            assert(outbox.log() =~= old(outbox).log() + fan_out(
                                sender,
                                issue,
                                recipients,
                                undeliverable,
                            ));
                        }
                        outcome = Err(delivery.abort(&recipient, cause.as_str()));
                        break ;
                    },
                }
            },
        }
    }
    outcome
}

} // verus!
