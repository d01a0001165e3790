//! The subscriber store: the table of subscribers and the table of
//! confirmation tokens, kept in memory, with the transaction that a
//! registration writes them in.
//!
//! A store can be told that one of its operations is out of order. That
//! operation then fails and changes nothing, as a database that cannot be
//! reached would; all the others go on working.

use crate::search::{first_where, first_where_found, first_where_is, first_where_nowhere};
use crate::text::same_text;
use vstd::prelude::*;
use vstd::string::StringExecFns;

verus! {

/// Where a subscription stands. A subscriber is created pending and moves to
/// confirmed; nothing leads back.
#[derive(Debug, Clone, Copy, PartialEq, Eq, Structural)]
pub enum SubscriberStatus {
    PendingConfirmation,
    Confirmed,
}

impl SubscriberStatus {
    pub open spec fn text(self) -> Seq<char> {
        match self {
            SubscriberStatus::PendingConfirmation => "pending_confirmation"@,
            SubscriberStatus::Confirmed => "confirmed"@,
        }
    }

    /// The word that the store keeps for this status.
    pub fn as_str(&self) -> (r: &'static str)
        ensures
            r@ == self.text(),
    {
        match self {
            SubscriberStatus::PendingConfirmation => "pending_confirmation",
            SubscriberStatus::Confirmed => "confirmed",
        }
    }
}

/// What the store can be asked to do.
#[derive(Debug, Clone, Copy, PartialEq, Eq, Structural)]
pub enum StoreOperation {
    Begin,
    InsertSubscriber,
    StoreToken,
    Commit,
    GetSubscriberIdFromToken,
    ConfirmSubscriber,
    GetConfirmedSubscribers,
}

impl StoreOperation {
    /// What a store says when it fails at this operation.
    pub open spec fn failure(self) -> Seq<char> {
        match self {
            StoreOperation::Begin => "Failed to begin a transaction"@,
            StoreOperation::InsertSubscriber => "Failed to insert a subscriber"@,
            StoreOperation::StoreToken => "Failed to insert a subscription token"@,
            StoreOperation::Commit => "Failed to commit the transaction"@,
            StoreOperation::GetSubscriberIdFromToken => "Failed to read the subscription tokens"@,
            StoreOperation::ConfirmSubscriber => "Failed to update the subscriber"@,
            StoreOperation::GetConfirmedSubscribers => "Failed to read the subscribers"@,
        }
    }

    /// What a store says when it fails at this operation.
    pub fn failure_message(&self) -> (message: String)
        ensures
            message@ == self.failure(),
    {
        match self {
            StoreOperation::Begin => String::from_str("Failed to begin a transaction"),
            StoreOperation::InsertSubscriber => String::from_str("Failed to insert a subscriber"),
            StoreOperation::StoreToken => String::from_str(
                "Failed to insert a subscription token",
            ),
            StoreOperation::Commit => String::from_str("Failed to commit the transaction"),
            StoreOperation::GetSubscriberIdFromToken => String::from_str(
                "Failed to read the subscription tokens",
            ),
            StoreOperation::ConfirmSubscriber => String::from_str(
                "Failed to update the subscriber",
            ),
            StoreOperation::GetConfirmedSubscribers => String::from_str(
                "Failed to read the subscribers",
            ),
        }
    }
}

/// Whether `r` is the outcome of `operation` on a store of which `failing`
/// is out of order: a failure with the message of the operation if it is
/// the one, a success if not.
pub open spec fn outcome_of<T>(
    operation: StoreOperation,
    failing: Option<StoreOperation>,
    r: Result<T, String>,
) -> bool {
    match r {
        Ok(_) => failing != Some(operation),
        Err(cause) => failing == Some(operation) && cause@ == operation.failure(),
    }
}

/// A row of the table of subscribers.
#[derive(Debug)]
pub struct Subscriber {
    pub id: u128,
    pub email: String,
    pub name: String,
    /// Microseconds since the Unix epoch.
    pub subscribed_at: i64,
    pub status: SubscriberStatus,
}

/// A row of the table of confirmation tokens.
#[derive(Debug)]
pub struct SubscriptionToken {
    pub subscription_token: String,
    pub subscriber_id: u128,
}

/// What a [`Subscriber`] holds.
pub struct SubscriberRow {
    pub id: u128,
    pub email: Seq<char>,
    pub name: Seq<char>,
    pub subscribed_at: i64,
    pub status: SubscriberStatus,
}

/// What a [`SubscriptionToken`] holds.
pub struct TokenRow {
    pub subscription_token: Seq<char>,
    pub subscriber_id: u128,
}

/// The contents of the two tables, each in the order in which its rows were
/// written.
pub struct Tables {
    pub subscriptions: Seq<SubscriberRow>,
    pub subscription_tokens: Seq<TokenRow>,
}

impl View for Subscriber {
    type V = SubscriberRow;

    open spec fn view(&self) -> SubscriberRow {
        SubscriberRow {
            id: self.id,
            email: self.email@,
            name: self.name@,
            subscribed_at: self.subscribed_at,
            status: self.status,
        }
    }
}

impl View for SubscriptionToken {
    type V = TokenRow;

    open spec fn view(&self) -> TokenRow {
        TokenRow {
            subscription_token: self.subscription_token@,
            subscriber_id: self.subscriber_id,
        }
    }
}

/// What the rows of the table of subscribers hold.
pub open spec fn subscriber_rows(rows: Seq<Subscriber>) -> Seq<SubscriberRow> {
    rows.map_values(|row: Subscriber| row@)
}

/// What pairs of an identifier and an email address hold.
pub open spec fn confirmed_rows(rows: Seq<(u128, String)>) -> Seq<(u128, Seq<char>)> {
    rows.map_values(|row: (u128, String)| (row.0, row.1@))
}

/// What the rows of the table of confirmation tokens hold.
pub open spec fn token_rows(rows: Seq<SubscriptionToken>) -> Seq<TokenRow> {
    rows.map_values(|row: SubscriptionToken| row@)
}

impl Tables {
    /// Tables without rows.
    pub open spec fn empty() -> Tables {
        Tables { subscriptions: Seq::empty(), subscription_tokens: Seq::empty() }
    }

    /// These tables with the rows of `written` behind their own.
    pub open spec fn extended_by(self, written: Tables) -> Tables {
        Tables {
            subscriptions: self.subscriptions + written.subscriptions,
            subscription_tokens: self.subscription_tokens + written.subscription_tokens,
        }
    }

    /// Whether the token at `i` is `token`.
    pub open spec fn token_at(self, i: int, token: Seq<char>) -> bool {
        0 <= i < self.subscription_tokens.len() && self.subscription_tokens[i].subscription_token
            == token
    }

    /// The places of the rows that hold `token`.
    pub open spec fn holds_token(self, token: Seq<char>) -> spec_fn(int) -> bool {
        |i: int| self.token_at(i, token)
    }

    /// The subscriber that `token` was issued to: the one of the first row
    /// that holds the token.
    pub open spec fn token_owner(self, token: Seq<char>) -> Option<u128> {
        match first_where(self.holds_token(token)) {
            Some(first) => Some(self.subscription_tokens[first].subscriber_id),
            None => None,
        }
    }

    /// These tables once every subscriber with the identifier `id` has been
    /// marked confirmed.
    pub open spec fn with_confirmed(self, id: u128) -> Tables {
        Tables {
            subscriptions: self.subscriptions.map_values(
                |row: SubscriberRow|
                    if row.id == id {
                        SubscriberRow { status: SubscriberStatus::Confirmed, ..row }
                    } else {
                        row
                    },
            ),
            subscription_tokens: self.subscription_tokens,
        }
    }

    /// The confirmed subscribers, each as its identifier and its email
    /// address, in the order of their rows.
    pub open spec fn confirmed_subscribers(self) -> Seq<(u128, Seq<char>)> {
        self.subscriptions.filter_map(
            |row: SubscriberRow|
                if row.status == SubscriberStatus::Confirmed {
                    Some((row.id, row.email))
                } else {
                    None
                },
        )
    }

    /// How many subscribers have the identifier `id`.
    pub open spec fn count_subscribers(self, id: u128) -> nat {
        count_subscribers_in(self.subscriptions, id)
    }

    /// How many tokens refer to the subscriber `id`.
    pub open spec fn count_tokens_of(self, id: u128) -> nat {
        count_tokens_in(self.subscription_tokens, id)
    }
}

/// The owner of a token is the subscriber of a row that holds the token,
/// and a token without an owner is held by no row.
pub proof fn token_owner_is_of_a_row(tables: Tables, token: Seq<char>)
    ensures
        match tables.token_owner(token) {
            Some(subscriber_id) => exists|i: int|
                tables.token_at(i, token) && (#[trigger] tables.subscription_tokens[i]).subscriber_id
                    == subscriber_id,
            None => forall|i: int| !tables.token_at(i, token),
        },
{
    let holds = tables.holds_token(token);
    if exists|at: int| 0 <= at && #[trigger] holds(at) {
        first_where_found(holds);
    } else {
        assert forall|i: int| !tables.token_at(i, token) by {
            if tables.token_at(i, token) {
                assert(holds(i));
            }
        }
    }
}

/// How many of `rows` have the identifier `id`.
pub open spec fn count_subscribers_in(rows: Seq<SubscriberRow>, id: u128) -> nat
    decreases rows.len(),
{
    if rows.len() == 0 {
        0
    } else {
        count_subscribers_in(rows.drop_last(), id) + (if rows.last().id == id {
            1nat
        } else {
            0nat
        })
    }
}

/// How many of `rows` refer to the subscriber `id`.
pub open spec fn count_tokens_in(rows: Seq<TokenRow>, id: u128) -> nat
    decreases rows.len(),
{
    if rows.len() == 0 {
        0
    } else {
        count_tokens_in(rows.drop_last(), id) + (if rows.last().subscriber_id == id {
            1nat
        } else {
            0nat
        })
    }
}

/// The subscriber store.
#[derive(Debug)]
pub struct SubscriberStore {
    subscriptions: Vec<Subscriber>,
    subscription_tokens: Vec<SubscriptionToken>,
    failing: Option<StoreOperation>,
}

/// Rows that are written together or not at all. Until it is committed a
/// transaction changes nothing in the store; one that is dropped never does.
#[derive(Debug)]
pub struct Transaction {
    subscriptions: Vec<Subscriber>,
    subscription_tokens: Vec<SubscriptionToken>,
    failing: Option<StoreOperation>,
}

impl View for SubscriberStore {
    type V = Tables;

    closed spec fn view(&self) -> Tables {
        Tables {
            subscriptions: subscriber_rows(self.subscriptions@),
            subscription_tokens: token_rows(self.subscription_tokens@),
        }
    }
}

impl View for Transaction {
    type V = Tables;

    closed spec fn view(&self) -> Tables {
        Tables {
            subscriptions: subscriber_rows(self.subscriptions@),
            subscription_tokens: token_rows(self.subscription_tokens@),
        }
    }
}

impl Transaction {
    /// The operation that is out of order, if any: that of the store at the
    /// time the transaction was opened.
    pub closed spec fn failing(&self) -> Option<StoreOperation> {
        self.failing
    }

    /// Adds a subscriber to what this transaction will write.
    pub fn insert_subscriber(&mut self, row: Subscriber) -> (r: Result<(), String>)
        ensures
            final(self).failing() == old(self).failing(),
            outcome_of(StoreOperation::InsertSubscriber, old(self).failing(), r),
            final(self)@.subscription_tokens == old(self)@.subscription_tokens,
            final(self)@.subscriptions == (if r is Ok {
                old(self)@.subscriptions.push(row@)
            } else {
                old(self)@.subscriptions
            }),
    {
        if self.failing == Some(StoreOperation::InsertSubscriber) {
            return Err(StoreOperation::InsertSubscriber.failure_message());
        }
        self.subscriptions.push(row);
        Ok(())
    }

    /// Adds a confirmation token to what this transaction will write.
    pub fn store_token(&mut self, row: SubscriptionToken) -> (r: Result<(), String>)
        ensures
            final(self).failing() == old(self).failing(),
            outcome_of(StoreOperation::StoreToken, old(self).failing(), r),
            final(self)@.subscriptions == old(self)@.subscriptions,
            final(self)@.subscription_tokens == (if r is Ok {
                old(self)@.subscription_tokens.push(row@)
            } else {
                old(self)@.subscription_tokens
            }),
    {
        if self.failing == Some(StoreOperation::StoreToken) {
            return Err(StoreOperation::StoreToken.failure_message());
        }
        self.subscription_tokens.push(row);
        Ok(())
    }
}

impl SubscriberStore {
    /// The operation that is out of order, if any.
    pub closed spec fn failing(&self) -> Option<StoreOperation> {
        self.failing
    }

    /// A store without subscribers, with everything in order.
    pub fn new() -> (store: SubscriberStore)
        ensures
            store@ == Tables::empty(),
            store.failing() is None,
    {
        let store = SubscriberStore {
            subscriptions: Vec::new(),
            subscription_tokens: Vec::new(),
            failing: None,
        };
        assert(store@.subscriptions =~= Seq::empty());
        assert(store@.subscription_tokens =~= Seq::empty());
        store
    }

    /// Puts `operation` out of order, and every other operation in order.
    pub fn fail_on(&mut self, operation: Option<StoreOperation>)
        ensures
            final(self)@ == old(self)@,
            final(self).failing() == operation,
    {
        self.failing = operation;
    }

    /// Opens a transaction, with nothing to write yet.
    pub fn begin(&self) -> (r: Result<Transaction, String>)
        ensures
            outcome_of(StoreOperation::Begin, self.failing(), r),
            r matches Ok(transaction) ==> transaction@ == Tables::empty() && transaction.failing()
                == self.failing(),
    {
        if self.failing == Some(StoreOperation::Begin) {
            return Err(StoreOperation::Begin.failure_message());
        }
        let transaction = Transaction {
            subscriptions: Vec::new(),
            subscription_tokens: Vec::new(),
            failing: self.failing,
        };
        assert(transaction@.subscriptions =~= Seq::empty());
        assert(transaction@.subscription_tokens =~= Seq::empty());
        Ok(transaction)
    }

    /// Writes all the rows of `transaction` behind those that the store
    /// holds, or none of them.
    pub fn commit(&mut self, transaction: Transaction) -> (r: Result<(), String>)
        ensures
            final(self).failing() == old(self).failing(),
            outcome_of(StoreOperation::Commit, old(self).failing(), r),
            final(self)@ == (if r is Ok {
                old(self)@.extended_by(transaction@)
            } else {
                old(self)@
            }),
    {
        if self.failing == Some(StoreOperation::Commit) {
            return Err(StoreOperation::Commit.failure_message());
        }
        let mut written = transaction;
        self.subscriptions.append(&mut written.subscriptions);
        self.subscription_tokens.append(&mut written.subscription_tokens);
        assert(self@.subscriptions =~= old(self)@.subscriptions + transaction@.subscriptions);
        assert(self@.subscription_tokens =~= old(self)@.subscription_tokens
            + transaction@.subscription_tokens);
        Ok(())
    }

    /// The rows of the table of subscribers.
    pub fn subscribers(&self) -> (rows: &Vec<Subscriber>)
        ensures
            subscriber_rows(rows@) == self@.subscriptions,
    {
        &self.subscriptions
    }

    /// The rows of the table of confirmation tokens.
    pub fn tokens(&self) -> (rows: &Vec<SubscriptionToken>)
        ensures
            token_rows(rows@) == self@.subscription_tokens,
    {
        &self.subscription_tokens
    }

    /// Reads the confirmed subscribers, each as its identifier and its email
    /// address, in the order of their rows.
    pub fn confirmed_subscribers(&self) -> (r: Result<Vec<(u128, String)>, String>)
        ensures
            outcome_of(StoreOperation::GetConfirmedSubscribers, self.failing(), r),
            r matches Ok(rows) ==> confirmed_rows(rows@) == self@.confirmed_subscribers(),
    {
        if self.failing == Some(StoreOperation::GetConfirmedSubscribers) {
            return Err(StoreOperation::GetConfirmedSubscribers.failure_message());
        }
        let ghost pick = |row: SubscriberRow|
            if row.status == SubscriberStatus::Confirmed {
                Some((row.id, row.email))
            } else {
                None
            };
        let mut rows: Vec<(u128, String)> = Vec::new();
        let mut i: usize = 0;
        while i < self.subscriptions.len()
            invariant
                i <= self.subscriptions.len(),
                pick == |row: SubscriberRow|
                    if row.status == SubscriberStatus::Confirmed {
                        Some((row.id, row.email))
                    } else {
                        None
                    },
                confirmed_rows(rows@) == self@.subscriptions.take(i as int).filter_map(pick),
            decreases self.subscriptions.len() - i,
        {
            let row = &self.subscriptions[i];
            proof {
                let upto = self@.subscriptions.take(i + 1);
                assert(upto.drop_last() =~= self@.subscriptions.take(i as int));
            }
            if row.status == SubscriberStatus::Confirmed {
                rows.push((row.id, row.email.clone()));
            }
            i = i + 1;
        }
        assert(self@.subscriptions.take(i as int) =~= self@.subscriptions);
        Ok(rows)
    }
}

/// Looks up the subscriber that `subscription_token` was issued to.
pub fn get_subscriber_id_from_token(store: &SubscriberStore, subscription_token: &str) -> (r:
    Result<Option<u128>, String>)
    ensures
        outcome_of(StoreOperation::GetSubscriberIdFromToken, store.failing(), r),
        r matches Ok(found) ==> found == store@.token_owner(subscription_token@),
{
    if store.failing == Some(StoreOperation::GetSubscriberIdFromToken) {
        return Err(StoreOperation::GetSubscriberIdFromToken.failure_message());
    }
    let ghost holds = store@.holds_token(subscription_token@);
    let mut i: usize = 0;
    while i < store.subscription_tokens.len()
        invariant
            i <= store.subscription_tokens.len(),
            store.failing() != Some(StoreOperation::GetSubscriberIdFromToken),
            holds == store@.holds_token(subscription_token@),
            forall|j: int| 0 <= j < i ==> !#[trigger] holds(j),
        decreases store.subscription_tokens.len() - i,
    {
        let row = &store.subscription_tokens[i];
        if same_text(row.subscription_token.as_str(), subscription_token) {
            proof {
                first_where_is(holds, i as int);
            }
            return Ok(Some(row.subscriber_id));
        }
        i = i + 1;
    }
    proof {
        first_where_nowhere(holds);
    }
    Ok(None)
}

/// Marks the subscriber `subscriber_id` confirmed, whatever its status
/// was.
pub fn confirm_subscriber(store: &mut SubscriberStore, subscriber_id: u128) -> (r: Result<(), String>)
    ensures
        final(store).failing() == old(store).failing(),
        outcome_of(StoreOperation::ConfirmSubscriber, old(store).failing(), r),
        final(store)@ == (if r is Ok {
            old(store)@.with_confirmed(subscriber_id)
        } else {
            old(store)@
        }),
{
    if store.failing == Some(StoreOperation::ConfirmSubscriber) {
        return Err(StoreOperation::ConfirmSubscriber.failure_message());
    }
    let mut i: usize = 0;
    while i < store.subscriptions.len()
        invariant
            i <= store.subscriptions.len(),
            store.subscriptions.len() == old(store).subscriptions.len(),
            store.subscription_tokens == old(store).subscription_tokens,
            store.failing == old(store).failing,
            forall|j: int|
                0 <= j < i ==> (#[trigger] store.subscriptions[j])@ == old(store)@.with_confirmed(subscriber_id).subscriptions[j],
            forall|j: int|
                i <= j < store.subscriptions.len() ==> #[trigger] store.subscriptions[j] == old(store).subscriptions[j],
        decreases store.subscriptions.len() - i,
    {
        if store.subscriptions[i].id == subscriber_id {
            store.subscriptions[i].status = SubscriberStatus::Confirmed;
        }
        i = i + 1;
    }
    assert(store@.subscriptions =~= old(store)@.with_confirmed(subscriber_id).subscriptions);
    Ok(())
}

} // verus!
