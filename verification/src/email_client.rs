//! What goes out by email: the client that composes a delivery request for
//! the mail service, and an outbox that stands in for that service.

use crate::domains::SubscriberEmail;
use crate::text::same_text;
use vstd::prelude::*;
use vstd::string::StringExecFns;

verus! {

/// The body of a delivery request to the mail service.
#[derive(Debug)]
pub struct SendEmailRequest {
    pub from: String,
    pub to: String,
    pub subject: String,
    pub html_body: String,
    pub text_body: String,
}

/// What a [`SendEmailRequest`] holds.
pub struct EmailText {
    pub from: Seq<char>,
    pub to: Seq<char>,
    pub subject: Seq<char>,
    pub html_body: Seq<char>,
    pub text_body: Seq<char>,
}

impl View for SendEmailRequest {
    type V = EmailText;

    open spec fn view(&self) -> EmailText {
        EmailText {
            from: self.from@,
            to: self.to@,
            subject: self.subject@,
            html_body: self.html_body@,
            text_body: self.text_body@,
        }
    }
}

/// The settings of a mail service and the sender that emails go out under.
#[derive(Debug)]
pub struct EmailClient {
    base_url: String,
    sender: SubscriberEmail,
    authorization_token: String,
    timeout_milliseconds: u64,
}

impl EmailClient {
    /// The address of the mail service.
    pub closed spec fn base_url(&self) -> Seq<char> {
        self.base_url@
    }

    /// The address that emails go out under.
    pub closed spec fn sender(&self) -> Seq<char> {
        self.sender@
    }

    /// The token that the mail service knows this client by.
    pub closed spec fn authorization_token(&self) -> Seq<char> {
        self.authorization_token@
    }

    /// How long a delivery may take, in milliseconds.
    pub closed spec fn timeout_milliseconds(&self) -> u64 {
        self.timeout_milliseconds
    }

    /// The email that this client sends to `recipient`.
    pub open spec fn email_to(
        &self,
        recipient: Seq<char>,
        subject: Seq<char>,
        html_content: Seq<char>,
        text_content: Seq<char>,
    ) -> EmailText {
        EmailText {
            from: self.sender(),
            to: recipient,
            subject,
            html_body: html_content,
            text_body: text_content,
        }
    }

    pub fn new(
        base_url: String,
        sender: SubscriberEmail,
        authorization_token: String,
        timeout_milliseconds: u64,
    ) -> (client: EmailClient)
        ensures
            client.base_url() == base_url@,
            client.sender() == sender@,
            client.authorization_token() == authorization_token@,
            client.timeout_milliseconds() == timeout_milliseconds,
    {
        EmailClient { base_url, sender, authorization_token, timeout_milliseconds }
    }

    /// How long a delivery may take, in milliseconds. One that takes longer
    /// counts as failed.
    pub fn timeout(&self) -> (milliseconds: u64)
        ensures
            milliseconds == self.timeout_milliseconds(),
    {
        self.timeout_milliseconds
    }

    /// The address that delivery requests are posted to.
    pub fn url(&self) -> (url: String)
        ensures
            url@ == self.base_url() + "/email"@,
    {
        self.base_url.clone().concat("/email")
    }

    /// The token that the mail service knows this client by.
    pub fn token(&self) -> (token: &str)
        ensures
            token@ == self.authorization_token(),
    {
        self.authorization_token.as_str()
    }

    /// Composes the request that delivers one email to one recipient.
    pub fn request(
        &self,
        recipient: &SubscriberEmail,
        subject: &str,
        html_content: &str,
        text_content: &str,
    ) -> (request: SendEmailRequest)
        ensures
            request@ == self.email_to(recipient@, subject@, html_content@, text_content@),
    {
        SendEmailRequest {
            from: self.sender.as_ref().to_owned(),
            to: recipient.as_ref().to_owned(),
            subject: subject.to_owned(),
            html_body: html_content.to_owned(),
            text_body: text_content.to_owned(),
        }
    }

    /// Sends one email to one recipient: composes the request and hands it
    /// to the mail service, here the outbox.
    pub fn send_email(
        &self,
        outbox: &mut Outbox,
        recipient: &SubscriberEmail,
        subject: &str,
        html_content: &str,
        text_content: &str,
    ) -> (r: Result<(), String>)
        ensures
            final(outbox).undeliverable() == old(outbox).undeliverable(),
            final(outbox).log() == old(outbox).log().push(
                AttemptText {
                    request: self.email_to(recipient@, subject@, html_content@, text_content@),
                    delivered: !old(outbox).bounces(recipient@),
                },
            ),
            match r {
                Ok(_) => !old(outbox).bounces(recipient@),
                Err(cause) => old(outbox).bounces(recipient@) && cause@ == recipient@
                    + " is undeliverable"@,
            },
    {
        outbox.send(self.request(recipient, subject, html_content, text_content))
    }
}

/// One attempt to deliver an email, and whether it got through.
#[derive(Debug)]
pub struct Attempt {
    pub request: SendEmailRequest,
    pub delivered: bool,
}

/// What an [`Attempt`] holds.
pub struct AttemptText {
    pub request: EmailText,
    pub delivered: bool,
}

impl View for Attempt {
    type V = AttemptText;

    open spec fn view(&self) -> AttemptText {
        AttemptText { request: self.request@, delivered: self.delivered }
    }
}

pub open spec fn attempt_texts(attempts: Seq<Attempt>) -> Seq<AttemptText> {
    attempts.map_values(|attempt: Attempt| attempt@)
}

pub open spec fn address_texts(addresses: Seq<String>) -> Seq<Seq<char>> {
    addresses.map_values(|address: String| address@)
}

/// A mail service in memory. It keeps every request it is handed, in order,
/// and fails exactly those to an address that it was told is undeliverable.
#[derive(Debug)]
pub struct Outbox {
    attempts: Vec<Attempt>,
    undeliverable: Vec<String>,
}

impl Outbox {
    /// Every attempt so far, oldest first.
    pub closed spec fn log(&self) -> Seq<AttemptText> {
        attempt_texts(self.attempts@)
    }

    /// Whether delivery to `address` fails.
    pub closed spec fn bounces(&self, address: Seq<char>) -> bool {
        address_texts(self.undeliverable@).contains(address)
    }

    /// The addresses that delivery fails to.
    pub closed spec fn undeliverable(&self) -> Seq<Seq<char>> {
        address_texts(self.undeliverable@)
    }

    /// Delivery fails to exactly the addresses that are undeliverable.
    pub proof fn bounces_is_membership(&self, address: Seq<char>)
        ensures
            self.bounces(address) == self.undeliverable().contains(address),
    {
    }

    /// An outbox that no request was handed to yet.
    pub fn new(undeliverable: Vec<String>) -> (outbox: Outbox)
        ensures
            outbox.log() == Seq::<AttemptText>::empty(),
            outbox.undeliverable() == address_texts(undeliverable@),
    {
        let outbox = Outbox { attempts: Vec::new(), undeliverable };
        outbox
    }

    /// The attempts so far, oldest first.
    pub fn attempts(&self) -> (attempts: &Vec<Attempt>)
        ensures
            attempt_texts(attempts@) == self.log(),
    {
        &self.attempts
    }

    /// Takes a request and says whether it was delivered.
    pub fn send(&mut self, request: SendEmailRequest) -> (r: Result<(), String>)
        ensures
            final(self).undeliverable() == old(self).undeliverable(),
            final(self).log() == old(self).log().push(
                AttemptText { request: request@, delivered: !old(self).bounces(request.to@) },
            ),
            match r {
                Ok(_) => !old(self).bounces(request.to@),
                Err(cause) => old(self).bounces(request.to@) && cause@ == request.to@
                    + " is undeliverable"@,
            },
    {
        let mut bounces = false;
        let mut i: usize = 0;
        while i < self.undeliverable.len()
            invariant
                i <= self.undeliverable.len(),
                bounces == address_texts(self.undeliverable@.take(i as int)).contains(request.to@),
            decreases self.undeliverable.len() - i,
        {
            let ghost before = address_texts(self.undeliverable@.take(i as int));
            let ghost after = address_texts(self.undeliverable@.take(i + 1));
            if same_text(self.undeliverable[i].as_str(), request.to.as_str()) {
                assert(after[i as int] == request.to@);
                bounces = true;
            } else {
                assert(after.contains(request.to@) ==> before.contains(request.to@)) by {
                    if after.contains(request.to@) {
                        let k = choose|k: int| 0 <= k < after.len() && after[k] == request.to@;
                        assert(before[k] == request.to@);
                    }
                }
                assert(before.contains(request.to@) ==> after.contains(request.to@)) by {
                    if before.contains(request.to@) {
                        let k = choose|k: int| 0 <= k < before.len() && before[k] == request.to@;
                        assert(after[k] == request.to@);
                    }
                }
            }
            i = i + 1;
        }
        assert(self.undeliverable@.take(i as int) =~= self.undeliverable@);
        let failure = if bounces {
            Some(request.to.clone().concat(" is undeliverable"))
        } else {
            None
        };
        self.attempts.push(Attempt { request, delivered: !bounces });
        match failure {
            Some(cause) => Err(cause),
            None => Ok(()),
        }
    }
}

} // verus!
