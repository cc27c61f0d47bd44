//! Registering a new subscriber.

use crate::application::ApplicationBaseUrl;
use crate::domain::subscriber_email::{email_rejection, is_email, SubscriberEmail};
use crate::domain::subscriber_name::{is_valid_name, name_rejection, SubscriberName};
use crate::domain::{NewSubscriber, SubscriptionStatus};
use crate::email_client::Email;
use crate::routes::{
    DeliveryFailure, StorageFailure, STATUS_BAD_REQUEST, STATUS_INTERNAL_SERVER_ERROR,
};
use crate::utils::{error_chain, error_chain_fmt};
use chrono::Utc;
use rand::distr::{Alphanumeric, SampleString};
use uuid::Uuid;
use vstd::prelude::*;
use vstd::string::StringExecFns;

verus! {

/// A confirmation token has this many characters.
pub const SUBSCRIPTION_TOKEN_LENGTH: usize = 25;

/// The store did not keep a confirmation token.
#[derive(Clone, Copy, Debug, PartialEq, Eq, Structural)]
pub struct StoreTokenError;

impl StoreTokenError {
    /// What this error says of itself.
    pub open spec fn text() -> Seq<char> {
        "A database error was encountered while trying to store a subscription token."@
    }

    /// What this error says of itself.
    pub fn message(&self) -> (message: String)
        ensures
            message@ == StoreTokenError::text(),
    {
        "A database error was encountered while trying to store a subscription token.".to_owned()
    }
}

/// Why a registration failed. Only a `ValidationError` is the visitor's
/// fault; its message is safe to show.
#[derive(Debug)]
pub enum SubscribeError {
    ValidationError(String),
    StoreTokenError(StoreTokenError),
    SendEmailError,
    PoolError,
    InsertSubscriberError,
    TransactionCommitError,
}

impl SubscribeError {
    /// What this error says of itself.
    pub open spec fn text(self) -> Seq<char> {
        match self {
            SubscribeError::ValidationError(message) => message@,
            SubscribeError::StoreTokenError(_) =>
                "Failed to store the confirmation token for the new subscriber"@,
            SubscribeError::SendEmailError => "Failed to send the confirmation email"@,
            SubscribeError::PoolError => "Failed to get a database connection from the pool"@,
            SubscribeError::InsertSubscriberError => "Failed to insert subscriber in the database"@,
            SubscribeError::TransactionCommitError =>
                "Failed to commit the transaction to store a new subscriber"@,
        }
    }

    /// What caused this error, as far as it does not say so itself.
    pub open spec fn causes(self) -> Seq<Seq<char>> {
        match self {
            SubscribeError::StoreTokenError(_) => seq![StoreTokenError::text()],
            _ => seq![],
        }
    }

    /// How this error shows to the client as a status.
    pub open spec fn status(self) -> u16 {
        if self is ValidationError {
            STATUS_BAD_REQUEST
        } else {
            STATUS_INTERNAL_SERVER_ERROR
        }
    }

    /// What this error says of itself.
    pub fn message(&self) -> (message: String)
        ensures
            message@ == self.text(),
    {
        match self {
            SubscribeError::ValidationError(message) => message.clone(),
            SubscribeError::StoreTokenError(_) =>
                "Failed to store the confirmation token for the new subscriber".to_owned(),
            SubscribeError::SendEmailError => "Failed to send the confirmation email".to_owned(),
            SubscribeError::PoolError =>
                "Failed to get a database connection from the pool".to_owned(),
            SubscribeError::InsertSubscriberError =>
                "Failed to insert subscriber in the database".to_owned(),
            SubscribeError::TransactionCommitError =>
                "Failed to commit the transaction to store a new subscriber".to_owned(),
        }
    }

    /// The report on this error and its cause, for the log.
    pub fn report(&self) -> (report: String)
        ensures
            report@ == error_chain(self.text(), self.causes()),
    {
        let mut causes: Vec<String> = Vec::new();
        match self {
            SubscribeError::StoreTokenError(error) => {
                causes.push(error.message());
            },
            _ => {},
        }
        assert(causes.deep_view() =~= self.causes());
        error_chain_fmt(self.message().as_str(), &causes)
    }

    /// The status that this error is answered with: it tells invalid input
    /// from any other failure, and nothing more.
    pub fn status_code(&self) -> (code: u16)
        ensures
            code == self.status(),
    {
        match self {
            SubscribeError::ValidationError(_) => STATUS_BAD_REQUEST,
            SubscribeError::PoolError
            | SubscribeError::TransactionCommitError
            | SubscribeError::InsertSubscriberError
            | SubscribeError::StoreTokenError(_)
            | SubscribeError::SendEmailError => STATUS_INTERNAL_SERVER_ERROR,
        }
    }
}

impl From<String> for SubscribeError {
    fn from(error: String) -> (r: SubscribeError) {
        SubscribeError::ValidationError(error)
    }
}

impl vstd::std_specs::convert::FromSpecImpl<String> for SubscribeError {
    open spec fn obeys_from_spec() -> bool {
        true
    }

    open spec fn from_spec(error: String) -> SubscribeError {
        SubscribeError::ValidationError(error)
    }
}

impl From<StoreTokenError> for SubscribeError {
    fn from(error: StoreTokenError) -> (r: SubscribeError) {
        SubscribeError::StoreTokenError(error)
    }
}

impl vstd::std_specs::convert::FromSpecImpl<StoreTokenError> for SubscribeError {
    open spec fn obeys_from_spec() -> bool {
        true
    }

    open spec fn from_spec(error: StoreTokenError) -> SubscribeError {
        SubscribeError::StoreTokenError(error)
    }
}

/// What a visitor submits to subscribe.
#[derive(Debug)]
pub struct SubscribeRequestBody {
    pub name: String,
    pub email: String,
}

/// `r` is what the submission of `name` and `email` is validated to: the
/// subscriber, or the report on the name, or else on the address.
pub open spec fn is_validated(
    name: Seq<char>,
    email: Seq<char>,
    r: Result<NewSubscriber, String>,
) -> bool {
    if !is_valid_name(name) {
        r matches Err(message) && message@ == name_rejection(name)
    } else if !is_email(email) {
        r matches Err(message) && message@ == email_rejection(email)
    } else {
        r matches Ok(subscriber) && subscriber.name@ == name && subscriber.email@ == email
    }
}

impl NewSubscriber {
    /// Validates a submission: first the name, then the address.
    pub fn try_from(value: SubscribeRequestBody) -> (r: Result<NewSubscriber, String>)
        ensures
            is_validated(value.name@, value.email@, r),
    {
        let name = match SubscriberName::parse(value.name) {
            Ok(name) => name,
            Err(message) => {
                return Err(message);
            },
        };
        let email = match SubscriberEmail::parse(value.email) {
            Ok(email) => email,
            Err(message) => {
                return Err(message);
            },
        };
        Ok(NewSubscriber { email, name })
    }
}

/// A moment, as the clock gave it: the seconds since the start of 1970 in
/// UTC and the nanoseconds into the second.
#[derive(Clone, Copy, Debug, PartialEq, Eq, Structural)]
pub struct Timestamp {
    pub seconds: i64,
    pub nanoseconds: u32,
}

/// The row that the store is to keep for a new subscriber.
pub struct SubscriptionRow {
    pub id: Uuid,
    pub email: String,
    pub name: String,
    pub subscribed_at: Timestamp,
    pub status: SubscriptionStatus,
}

/// `Uuid::new_v4` draws a random identifier.
#[verifier::external_body]
fn new_uuid() -> Uuid {
    Uuid::new_v4()
}

/// `Utc::now` reads the clock; `timestamp` and `timestamp_subsec_nanos` give
/// the two parts of what it read.
#[verifier::external_body]
fn now() -> Timestamp {
    let now = Utc::now();
    Timestamp { seconds: now.timestamp(), nanoseconds: now.timestamp_subsec_nanos() }
}

/// The characters that a confirmation token is drawn from.
pub open spec fn is_token_character(c: char) -> bool {
    ('0' <= c && c <= '9') || ('a' <= c && c <= 'z') || ('A' <= c && c <= 'Z')
}

/// `text` is made of `length` letters and digits of ASCII.
pub open spec fn is_alphanumeric_of_length(text: Seq<char>, length: nat) -> bool {
    &&& text.len() == length
    &&& forall|i: int| 0 <= i < text.len() ==> is_token_character(#[trigger] text[i])
}

/// The texts that can be confirmation tokens.
pub open spec fn is_subscription_token(text: Seq<char>) -> bool {
    is_alphanumeric_of_length(text, SUBSCRIPTION_TOKEN_LENGTH as nat)
}

/// `Alphanumeric.sample_string` on the thread's generator draws `length`
/// characters, each uniformly from the letters and digits of ASCII.
#[verifier::external_body]
fn random_alphanumeric(length: usize) -> (text: String)
    ensures
        is_alphanumeric_of_length(text@, length as nat),
{
    let mut rng = rand::rng();
    Alphanumeric.sample_string(&mut rng, length)
}

/// Draws a fresh confirmation token.
pub fn generate_subscription_token() -> (token: String)
    ensures
        is_subscription_token(token@),
{
    random_alphanumeric(SUBSCRIPTION_TOKEN_LENGTH)
}

/// `row` is a row for `subscriber`: it holds the subscriber's name and
/// address, and the subscription in it is pending.
pub open spec fn is_row_of(subscriber: NewSubscriber, row: SubscriptionRow) -> bool {
    &&& row.email@ == subscriber.email@
    &&& row.name@ == subscriber.name@
    &&& row.status == SubscriptionStatus::PendingConfirmation
}

/// The row to insert for `new_subscriber`: under a fresh identifier, as of
/// now, and pending confirmation.
pub fn insert_subscriber(new_subscriber: &NewSubscriber) -> (row: SubscriptionRow)
    ensures
        is_row_of(*new_subscriber, row),
{
    SubscriptionRow {
        id: new_uuid(),
        email: new_subscriber.email.as_ref().to_owned(),
        name: new_subscriber.name.as_ref().to_owned(),
        subscribed_at: now(),
        status: SubscriptionStatus::new(),
    }
}

/// The link that confirms the subscription that `token` stands for.
pub open spec fn confirmation_link(base_url: Seq<char>, token: Seq<char>) -> Seq<char> {
    base_url + "/subscriptions/confirm?subscription_token="@ + token
}

/// What the HTML rendering of a confirmation email says before the link.
pub open spec fn html_lead() -> Seq<char> {
    "Welcome to our newsletter!<br />Click <a href=\""@
}

/// What the plain rendering of a confirmation email says before the link.
pub open spec fn text_lead() -> Seq<char> {
    "Welcome to our newsletter!\nVisit "@
}

/// The HTML rendering of the email that asks to follow `link`.
pub open spec fn confirmation_html(link: Seq<char>) -> Seq<char> {
    html_lead() + link + "\">here</a> to confirm your subscription."@
}

/// The plain rendering of the email that asks to follow `link`.
pub open spec fn confirmation_text(link: Seq<char>) -> Seq<char> {
    text_lead() + link + " to confirm your subscription."@
}

/// `email` asks the owner of `recipient` to confirm by the link for `token`.
pub open spec fn is_confirmation_email(
    email: Email,
    recipient: Seq<char>,
    base_url: Seq<char>,
    token: Seq<char>,
) -> bool {
    &&& email.recipient@ == recipient
    &&& email.subject@ == "Welcome!"@
    &&& email.html_content@ == confirmation_html(confirmation_link(base_url, token))
    &&& email.text_content@ == confirmation_text(confirmation_link(base_url, token))
}

/// The email that asks `new_subscriber` to confirm: both renderings hold the
/// same link, which leads to the confirmation endpoint under
/// `application_base_url` and carries `subscription_token`.
pub fn send_confirmation_email(
    new_subscriber: NewSubscriber,
    application_base_url: &ApplicationBaseUrl,
    subscription_token: &str,
) -> (email: Email)
    ensures
        is_confirmation_email(
            email,
            new_subscriber.email@,
            application_base_url.0@,
            subscription_token@,
        ),
{
    let mut confirmation_link = application_base_url.0.clone();
    confirmation_link.append("/subscriptions/confirm?subscription_token=");
    confirmation_link.append(subscription_token);

    let mut html_content = "Welcome to our newsletter!<br />Click <a href=\"".to_owned();
    html_content.append(confirmation_link.as_str());
    html_content.append("\">here</a> to confirm your subscription.");

    let mut text_content = "Welcome to our newsletter!\nVisit ".to_owned();
    text_content.append(confirmation_link.as_str());
    text_content.append(" to confirm your subscription.");

    Email {
        recipient: new_subscriber.email,
        subject: "Welcome!".to_owned(),
        html_content,
        text_content,
    }
}

/// The progress of one registration. Each state but the first and the last
/// names the outside work that is due; the work from `InsertingSubscriber`
/// to `Committing` belongs to the transaction that `OpeningTransaction`
/// opens, and a registration that ends before the commit leaves nothing
/// behind.
pub enum Subscription {
    /// No request has come in.
    Idle,
    /// Due: a transaction is opened on the store.
    OpeningTransaction { subscriber: NewSubscriber, base_url: ApplicationBaseUrl },
    /// Due: `row` is inserted into the subscriptions.
    InsertingSubscriber {
        subscriber: NewSubscriber,
        base_url: ApplicationBaseUrl,
        row: SubscriptionRow,
    },
    /// Due: `subscription_token` is stored as the token of `subscriber_id`.
    StoringToken {
        subscriber: NewSubscriber,
        base_url: ApplicationBaseUrl,
        subscriber_id: Uuid,
        subscription_token: String,
    },
    /// Due: the transaction is committed.
    Committing {
        subscriber: NewSubscriber,
        base_url: ApplicationBaseUrl,
        subscription_token: String,
    },
    /// Due: `email` is sent. The subscriber and the token are committed and
    /// stay so, whatever becomes of the email.
    SendingConfirmation { email: Email },
    /// The request is answered.
    Done(Result<(), SubscribeError>),
}

/// What the outside world reports to a registration.
pub enum SubscriptionEvent {
    /// The request came in.
    Requested { form: SubscribeRequestBody, base_url: ApplicationBaseUrl },
    /// The store was asked for what was due.
    Stored(Result<(), StorageFailure>),
    /// The email that was due was handed to the sender.
    EmailSent(Result<(), DeliveryFailure>),
}

/// `next` is the state that follows `state` on `event`. An event that
/// `state` does not wait for leaves it as it is.
pub open spec fn is_next_subscription(
    state: Subscription,
    event: SubscriptionEvent,
    next: Subscription,
) -> bool {
    match (state, event) {
        (Subscription::Idle, SubscriptionEvent::Requested { form, base_url }) => match next {
            Subscription::OpeningTransaction { subscriber, base_url: carried } => carried
                == base_url && is_validated(form.name@, form.email@, Ok(subscriber)),
            Subscription::Done(Err(SubscribeError::ValidationError(message))) => is_validated(
                form.name@,
                form.email@,
                Err(message),
            ),
            _ => false,
        },
        (
            Subscription::OpeningTransaction { subscriber, base_url },
            SubscriptionEvent::Stored(outcome),
        ) => match outcome {
            Err(_) => next == Subscription::Done(Err(SubscribeError::PoolError)),
            Ok(()) => next matches Subscription::InsertingSubscriber {
                subscriber: same,
                base_url: carried,
                row,
            } && same == subscriber && carried == base_url && is_row_of(subscriber, row),
        },
        (
            Subscription::InsertingSubscriber { subscriber, base_url, row },
            SubscriptionEvent::Stored(outcome),
        ) => match outcome {
            Err(_) => next == Subscription::Done(Err(SubscribeError::InsertSubscriberError)),
            Ok(()) => next matches Subscription::StoringToken {
                subscriber: same,
                base_url: carried,
                subscriber_id,
                subscription_token,
            } && same == subscriber && carried == base_url && subscriber_id == row.id
                && is_subscription_token(subscription_token@),
        },
        (
            Subscription::StoringToken { subscriber, base_url, subscription_token, .. },
            SubscriptionEvent::Stored(outcome),
        ) => match outcome {
            Err(_) => next == Subscription::Done(
                Err(SubscribeError::StoreTokenError(StoreTokenError)),
            ),
            Ok(()) => next == Subscription::Committing { subscriber, base_url, subscription_token },
        },
        (
            Subscription::Committing { subscriber, base_url, subscription_token },
            SubscriptionEvent::Stored(outcome),
        ) => match outcome {
            Err(_) => next == Subscription::Done(Err(SubscribeError::TransactionCommitError)),
            Ok(()) => next matches Subscription::SendingConfirmation { email }
                && is_confirmation_email(
                email,
                subscriber.email@,
                base_url.0@,
                subscription_token@,
            ),
        },
        (Subscription::SendingConfirmation { .. }, SubscriptionEvent::EmailSent(outcome)) => {
            match outcome {
                Err(_) => next == Subscription::Done(Err(SubscribeError::SendEmailError)),
                Ok(()) => next == Subscription::Done(Ok(())),
            }
        },
        _ => next == state,
    }
}

/// Takes a registration one step further: from the state it is in and what
/// the outside world reports, to the state that names what is due next.
pub fn subscribe_controller(state: Subscription, event: SubscriptionEvent) -> (next: Subscription)
    ensures
        is_next_subscription(state, event, next),
{
    match (state, event) {
        (Subscription::Idle, SubscriptionEvent::Requested { form, base_url }) => {
            match NewSubscriber::try_from(form) {
                Ok(subscriber) => Subscription::OpeningTransaction { subscriber, base_url },
                Err(message) => Subscription::Done(Err(SubscribeError::ValidationError(message))),
            }
        },
        (
            Subscription::OpeningTransaction { subscriber, base_url },
            SubscriptionEvent::Stored(outcome),
        ) => match outcome {
            Err(_) => Subscription::Done(Err(SubscribeError::PoolError)),
            Ok(()) => {
                let row = insert_subscriber(&subscriber);
                Subscription::InsertingSubscriber { subscriber, base_url, row }
            },
        },
        (
            Subscription::InsertingSubscriber { subscriber, base_url, row },
            SubscriptionEvent::Stored(outcome),
        ) => match outcome {
            Err(_) => Subscription::Done(Err(SubscribeError::InsertSubscriberError)),
            Ok(()) => Subscription::StoringToken {
                subscriber,
                base_url,
                subscriber_id: row.id,
                subscription_token: generate_subscription_token(),
            },
        },
        (
            Subscription::StoringToken { subscriber, base_url, subscription_token, .. },
            SubscriptionEvent::Stored(outcome),
        ) => match outcome {
            Err(_) => Subscription::Done(Err(SubscribeError::StoreTokenError(StoreTokenError))),
            Ok(()) => Subscription::Committing { subscriber, base_url, subscription_token },
        },
        (
            Subscription::Committing { subscriber, base_url, subscription_token },
            SubscriptionEvent::Stored(outcome),
        ) => match outcome {
            Err(_) => Subscription::Done(Err(SubscribeError::TransactionCommitError)),
            Ok(()) => Subscription::SendingConfirmation {
                email: send_confirmation_email(subscriber, &base_url, subscription_token.as_str()),
            },
        },
        (Subscription::SendingConfirmation { .. }, SubscriptionEvent::EmailSent(outcome)) => {
            match outcome {
                Err(_) => Subscription::Done(Err(SubscribeError::SendEmailError)),
                Ok(()) => Subscription::Done(Ok(())),
            }
        },
        (state, _) => state,
    }
}

/// Both renderings of a confirmation email hold the confirmation link,
/// right after their lead, and so refer to the same address.
pub proof fn lemma_renderings_share_link(link: Seq<char>)
    ensures
        confirmation_html(link).skip(html_lead().len() as int).take(link.len() as int) == link,
        confirmation_text(link).skip(text_lead().len() as int).take(link.len() as int) == link,
{
    assert(confirmation_html(link).skip(html_lead().len() as int).take(link.len() as int)
        =~= link);
    assert(confirmation_text(link).skip(text_lead().len() as int).take(link.len() as int)
        =~= link);
}

/// The confirmation link ends with the token, which the confirmation
/// endpoint reads from the query.
pub proof fn lemma_link_carries_token(base_url: Seq<char>, token: Seq<char>)
    ensures
        confirmation_link(base_url, token).subrange(
            confirmation_link(base_url, token).len() - token.len(),
            confirmation_link(base_url, token).len() as int,
        ) == token,
        base_url.is_prefix_of(confirmation_link(base_url, token)),
{
    let link = confirmation_link(base_url, token);
    assert(link.subrange(link.len() - token.len(), link.len() as int) =~= token);
    assert(link.subrange(0, base_url.len() as int) =~= base_url);
}

/// A submission with an invalid name or address is refused as the
/// visitor's fault before anything is asked of the store.
pub proof fn lemma_invalid_submission_is_refused(
    form: SubscribeRequestBody,
    base_url: ApplicationBaseUrl,
    next: Subscription,
)
    requires
        !is_valid_name(form.name@) || !is_email(form.email@),
        is_next_subscription(
            Subscription::Idle,
            SubscriptionEvent::Requested { form, base_url },
            next,
        ),
    ensures
        next matches Subscription::Done(Err(error)) && error is ValidationError && error.status()
            == STATUS_BAD_REQUEST,
{
}

/// A subscriber is created pending confirmation, and the token is stored
/// for the subscriber that was inserted.
pub proof fn lemma_new_subscription_is_pending(
    state: Subscription,
    event: SubscriptionEvent,
    next: Subscription,
)
    requires
        is_next_subscription(state, event, next),
    ensures
        next is InsertingSubscriber && !(state is InsertingSubscriber) ==> (
        next matches Subscription::InsertingSubscriber { row, .. } && row.status
            == SubscriptionStatus::PendingConfirmation),
        next is StoringToken && !(state is StoringToken) ==> (
        state matches Subscription::InsertingSubscriber { row, .. } && (
        next matches Subscription::StoringToken { subscriber_id, subscription_token, .. }
            && subscriber_id == row.id && subscription_token@.len() == SUBSCRIPTION_TOKEN_LENGTH)),
{
}

/// A failure of the store ends the registration as an unexpected error, and
/// no email is sent.
pub proof fn lemma_storage_failure_ends_registration(
    state: Subscription,
    failure: StorageFailure,
    next: Subscription,
)
    requires
        state is OpeningTransaction || state is InsertingSubscriber || state is StoringToken
            || state is Committing,
        is_next_subscription(state, SubscriptionEvent::Stored(Err(failure)), next),
    ensures
        next matches Subscription::Done(Err(error)) && error.status()
            == STATUS_INTERNAL_SERVER_ERROR,
{
}

/// The confirmation email is sent only once the transaction is committed,
/// and where it cannot be sent the registration reports that: nothing
/// follows that could undo the commit.
pub proof fn lemma_confirmation_follows_commit(
    state: Subscription,
    event: SubscriptionEvent,
    next: Subscription,
)
    requires
        is_next_subscription(state, event, next),
    ensures
        next is SendingConfirmation && !(state is SendingConfirmation) ==> state is Committing
            && event matches SubscriptionEvent::Stored(Ok(_)),
        state is SendingConfirmation && (event matches SubscriptionEvent::EmailSent(Err(_)))
            ==> next == Subscription::Done(Err(SubscribeError::SendEmailError)),
        state is SendingConfirmation && (event matches SubscriptionEvent::EmailSent(Ok(_)))
            ==> next == Subscription::Done(Ok(())),
{
}

} // verus!
