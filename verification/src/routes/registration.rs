use crate::domains::NewSubscriber;
use crate::email_client::{EmailClient, EmailText, SendEmailRequest};
use crate::routes::subscriptions::{
    compose_confirmation_email, confirmation_email, draw_subscriber_id, generate_subscription_token,
    is_pending_row, is_random_uuid, is_subscription_token, parse_subscriber, parsed,
    pending_subscriber, read_clock, FormData, StoreTokenError, SubscribeError,
};
use crate::store::{Subscriber, SubscriberRow, SubscriberStatus, SubscriptionToken, TokenRow};
use vstd::prelude::*;

verus! {

/// The pieces of work that a registration asks of the store and of the mail
/// service, in the order in which they are done.
#[derive(Debug, Clone, Copy, PartialEq, Eq, Structural)]
pub enum RegistrationPhase {
    /// Open a transaction.
    Begin,
    /// Write the subscriber in the transaction.
    InsertSubscriber,
    /// Write the confirmation token in the transaction.
    StoreToken,
    /// Commit the transaction.
    Commit,
    /// Send the confirmation email.
    SendEmail,
}

impl RegistrationPhase {
    /// What is done once this piece of work has succeeded. The email is the
    /// last: it goes out only after the transaction is committed.
    pub open spec fn successor(self) -> Option<RegistrationPhase> {
        match self {
            RegistrationPhase::Begin => Some(RegistrationPhase::InsertSubscriber),
            RegistrationPhase::InsertSubscriber => Some(RegistrationPhase::StoreToken),
            RegistrationPhase::StoreToken => Some(RegistrationPhase::Commit),
            RegistrationPhase::Commit => Some(RegistrationPhase::SendEmail),
            RegistrationPhase::SendEmail => None,
        }
    }

    /// Whether `error` is the one that a failure of this piece of work with
    /// `cause` ends the registration with.
    pub open spec fn fails_with(self, error: SubscribeError, cause: Seq<char>) -> bool {
        match self {
            RegistrationPhase::Begin => error matches SubscribeError::PoolError(reason)
                && reason@ == cause,
            RegistrationPhase::InsertSubscriber => error matches SubscribeError::InsertSubscriberError(
                reason,
            ) && reason@ == cause,
            RegistrationPhase::StoreToken => error matches SubscribeError::StoreTokenError(
                StoreTokenError(reason),
            ) && reason@ == cause,
            RegistrationPhase::Commit => error matches SubscribeError::TransactionCommitError(
                reason,
            ) && reason@ == cause,
            RegistrationPhase::SendEmail => error matches SubscribeError::SendEmailError(reason)
                && reason@ == cause,
        }
    }
}

/// A registration under way: what is to be written and sent, and the piece
/// of work that is due.
///
/// The caller does the work that [`Registration::pending`] names, with the
/// rows and the email that the registration holds, and reports how it went
/// to [`Registration::advance`]. A transaction that was opened and is not
/// committed when the registration ends is to be abandoned: then nothing
/// of the registration is in the store.
#[derive(Debug)]
pub struct Registration {
    subscriber: Subscriber,
    token: SubscriptionToken,
    email: SendEmailRequest,
    phase: RegistrationPhase,
}

impl Registration {
    pub closed spec fn phase(&self) -> RegistrationPhase {
        self.phase
    }

    pub closed spec fn subscriber(&self) -> SubscriberRow {
        self.subscriber@
    }

    pub closed spec fn token(&self) -> TokenRow {
        self.token@
    }

    pub closed spec fn email(&self) -> EmailText {
        self.email@
    }

    /// Sets a registration up from a checked subscriber and from what only
    /// the outside can give: an identifier, the time and a token.
    pub fn prepare(
        new_subscriber: &NewSubscriber,
        subscriber_id: u128,
        subscribed_at: i64,
        subscription_token: String,
        email_client: &EmailClient,
        base_url: &str,
    ) -> (registration: Registration)
        ensures
            registration.phase() == RegistrationPhase::Begin,
            registration.subscriber() == (SubscriberRow {
                id: subscriber_id,
                email: new_subscriber.email@,
                name: new_subscriber.name@,
                subscribed_at,
                status: SubscriberStatus::PendingConfirmation,
            }),
            registration.token() == (TokenRow {
                subscription_token: subscription_token@,
                subscriber_id,
            }),
            registration.email() == confirmation_email(
                email_client.sender(),
                new_subscriber.email@,
                base_url@,
                subscription_token@,
            ),
    {
        let email = compose_confirmation_email(
            email_client,
            new_subscriber,
            base_url,
            subscription_token.as_str(),
        );
        Registration {
            subscriber: pending_subscriber(subscriber_id, subscribed_at, new_subscriber),
            token: SubscriptionToken { subscription_token, subscriber_id },
            email,
            phase: RegistrationPhase::Begin,
        }
    }

    /// Takes up a registration: checks what the visitor filled in and, if it
    /// passes, makes up the identifier and the token and reads the clock.
    /// Rejected input ends the registration before any work is due.
    pub fn begin(form: FormData, email_client: &EmailClient, base_url: &str) -> (r: Result<
        Registration,
        SubscribeError,
    >)
        ensures
            match parsed(form.name@, form.email@) {
                Err(reason) => r matches Err(SubscribeError::ValidationError(message)) && message@
                    == reason,
                Ok((name, email)) => {
                    &&& r matches Ok(registration)
                    &&& registration.phase() == RegistrationPhase::Begin
                    &&& is_pending_row(
                        registration.subscriber(),
                        registration.token().subscriber_id,
                        email,
                        name,
                    )
                    &&& is_random_uuid(registration.subscriber().id)
                    &&& is_subscription_token(registration.token().subscription_token)
                    &&& registration.email() == confirmation_email(
                        email_client.sender(),
                        email,
                        base_url@,
                        registration.token().subscription_token,
                    )
                },
            },
    {
        let new_subscriber = match parse_subscriber(form) {
            Ok(new_subscriber) => new_subscriber,
            Err(message) => { return Err(SubscribeError::ValidationError(message)); },
        };
        Ok(
            Registration::prepare(
                &new_subscriber,
                draw_subscriber_id(),
                read_clock(),
                generate_subscription_token(),
                email_client,
                base_url,
            ),
        )
    }

    /// The piece of work that is due.
    pub fn pending(&self) -> (phase: RegistrationPhase)
        ensures
            phase == self.phase(),
    {
        self.phase
    }

    /// The subscriber to write.
    pub fn subscriber_row(&self) -> (row: &Subscriber)
        ensures
            row@ == self.subscriber(),
    {
        &self.subscriber
    }

    /// The confirmation token to write.
    pub fn token_row(&self) -> (row: &SubscriptionToken)
        ensures
            row@ == self.token(),
    {
        &self.token
    }

    /// The email to send.
    pub fn confirmation(&self) -> (request: &SendEmailRequest)
        ensures
            request@ == self.email(),
    {
        &self.email
    }

    /// Goes on with the outcome of the piece of work that was due. A failure
    /// ends the registration with the error of that piece of work; a success
    /// leads to the next piece, or to the end after the last.
    pub fn advance(self, outcome: Result<(), String>) -> (r: Result<
        Option<Registration>,
        SubscribeError,
    >)
        ensures
            match outcome {
                Err(cause) => r matches Err(error) && self.phase().fails_with(error, cause@),
                Ok(_) => match self.phase().successor() {
                    None => r matches Ok(None),
                    Some(next) => {
                        &&& r matches Ok(Some(registration))
                        &&& registration.phase() == next
                        &&& registration.subscriber() == self.subscriber()
                        &&& registration.token() == self.token()
                        &&& registration.email() == self.email()
                    },
                },
            },
    {
        let phase = self.phase;
        match outcome {
            Err(cause) => Err(
                match phase {
                    RegistrationPhase::Begin => SubscribeError::PoolError(cause),
                    RegistrationPhase::InsertSubscriber => SubscribeError::InsertSubscriberError(
                        cause,
                    ),
                    RegistrationPhase::StoreToken => SubscribeError::StoreTokenError(
                        StoreTokenError(cause),
                    ),
                    RegistrationPhase::Commit => SubscribeError::TransactionCommitError(cause),
                    RegistrationPhase::SendEmail => SubscribeError::SendEmailError(cause),
                },
            ),
            Ok(_) => {
                let next = match phase {
                    RegistrationPhase::Begin => RegistrationPhase::InsertSubscriber,
                    RegistrationPhase::InsertSubscriber => RegistrationPhase::StoreToken,
                    RegistrationPhase::StoreToken => RegistrationPhase::Commit,
                    RegistrationPhase::Commit => RegistrationPhase::SendEmail,
                    RegistrationPhase::SendEmail => { return Ok(None); },
                };
                Ok(
                    Some(
                        Registration {
                            subscriber: self.subscriber,
                            token: self.token,
                            email: self.email,
                            phase: next,
                        },
                    ),
                )
            },
        }
    }
}

} // verus!
