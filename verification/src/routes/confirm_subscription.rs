//! Confirming a subscription by the token that was mailed out.

use crate::domain::SubscriptionStatus;
use crate::routes::{
    StorageFailure, STATUS_INTERNAL_SERVER_ERROR, STATUS_OK, STATUS_UNAUTHORIZED,
};
use uuid::Uuid;
use vstd::prelude::*;

verus! {

/// What a request to confirm carries in its query.
pub struct Parameters {
    pub subscription_token: String,
}

/// How a request to confirm is answered.
#[derive(Clone, Copy, Debug, PartialEq, Eq, Structural)]
pub enum ConfirmationReply {
    /// The subscription that the token stands for is confirmed, now or
    /// since before.
    Confirmed,
    /// No subscription is known under the token. The reply does not tell a
    /// token that never existed from any other.
    Unauthorized,
    /// The store failed.
    InternalServerError,
}

impl ConfirmationReply {
    /// How this reply shows to the client as a status.
    pub open spec fn status(self) -> u16 {
        match self {
            ConfirmationReply::Confirmed => STATUS_OK,
            ConfirmationReply::Unauthorized => STATUS_UNAUTHORIZED,
            ConfirmationReply::InternalServerError => STATUS_INTERNAL_SERVER_ERROR,
        }
    }

    /// The status that this reply goes out with.
    pub fn status_code(&self) -> (code: u16)
        ensures
            code == self.status(),
    {
        match self {
            ConfirmationReply::Confirmed => STATUS_OK,
            ConfirmationReply::Unauthorized => STATUS_UNAUTHORIZED,
            ConfirmationReply::InternalServerError => STATUS_INTERNAL_SERVER_ERROR,
        }
    }
}

/// The progress of one request to confirm. Each state but the first and the
/// last names the outside work that is due.
pub enum Confirmation {
    /// No request has come in.
    Idle,
    /// Due: the subscriber that owns `subscription_token` is looked up.
    ResolvingToken { subscription_token: String },
    /// Due: the status of `subscriber_id` is set to `status`.
    ConfirmingSubscriber { subscriber_id: Uuid, status: SubscriptionStatus },
    /// The request is answered.
    Done(ConfirmationReply),
}

/// What the outside world reports to a request to confirm.
pub enum ConfirmationEvent {
    /// The request came in.
    Requested(Parameters),
    /// The token was looked up: it belongs to a subscriber, or to none.
    TokenResolved(Result<Option<Uuid>, StorageFailure>),
    /// The store was asked to set the status.
    StatusStored(Result<(), StorageFailure>),
}

/// The state that follows `state` on `event`. An event that `state` does not
/// wait for leaves it as it is.
pub open spec fn next_confirmation(state: Confirmation, event: ConfirmationEvent) -> Confirmation {
    match (state, event) {
        (Confirmation::Idle, ConfirmationEvent::Requested(parameters)) => {
            Confirmation::ResolvingToken { subscription_token: parameters.subscription_token }
        },
        (Confirmation::ResolvingToken { .. }, ConfirmationEvent::TokenResolved(resolved)) => {
            match resolved {
                Err(_) => Confirmation::Done(ConfirmationReply::InternalServerError),
                Ok(None) => Confirmation::Done(ConfirmationReply::Unauthorized),
                Ok(Some(subscriber_id)) => Confirmation::ConfirmingSubscriber {
                    subscriber_id,
                    status: SubscriptionStatus::Confirmed,
                },
            }
        },
        (Confirmation::ConfirmingSubscriber { .. }, ConfirmationEvent::StatusStored(outcome)) => {
            match outcome {
                Err(_) => Confirmation::Done(ConfirmationReply::InternalServerError),
                Ok(()) => Confirmation::Done(ConfirmationReply::Confirmed),
            }
        },
        _ => state,
    }
}

/// Takes a request to confirm one step further: from the state it is in and
/// what the outside world reports, to the state that names what is due next.
pub fn confirm_subscription(state: Confirmation, event: ConfirmationEvent) -> (next: Confirmation)
    ensures
        next == next_confirmation(state, event),
{
    match (state, event) {
        (Confirmation::Idle, ConfirmationEvent::Requested(parameters)) => {
            Confirmation::ResolvingToken { subscription_token: parameters.subscription_token }
        },
        (Confirmation::ResolvingToken { .. }, ConfirmationEvent::TokenResolved(resolved)) => {
            match resolved {
                Err(_) => Confirmation::Done(ConfirmationReply::InternalServerError),
                Ok(None) => Confirmation::Done(ConfirmationReply::Unauthorized),
                Ok(Some(subscriber_id)) => Confirmation::ConfirmingSubscriber {
                    subscriber_id,
                    status: SubscriptionStatus::PendingConfirmation.confirm(),
                },
            }
        },
        (Confirmation::ConfirmingSubscriber { .. }, ConfirmationEvent::StatusStored(outcome)) => {
            match outcome {
                Err(_) => Confirmation::Done(ConfirmationReply::InternalServerError),
                Ok(()) => Confirmation::Done(ConfirmationReply::Confirmed),
            }
        },
        (state, _) => state,
    }
}

/// The reply to a request to confirm whose token resolves to `resolved` and
/// whose status, where it is due, is stored with `stored`.
pub open spec fn reply_to(
    parameters: Parameters,
    resolved: Result<Option<Uuid>, StorageFailure>,
    stored: Result<(), StorageFailure>,
) -> Confirmation {
    next_confirmation(
        next_confirmation(
            next_confirmation(Confirmation::Idle, ConfirmationEvent::Requested(parameters)),
            ConfirmationEvent::TokenResolved(resolved),
        ),
        ConfirmationEvent::StatusStored(stored),
    )
}

/// A token that no subscriber owns is answered with `Unauthorized`, and
/// nothing is asked of the store after the lookup.
pub proof fn lemma_unknown_token_is_unauthorized(
    parameters: Parameters,
    stored: Result<(), StorageFailure>,
)
    ensures
        next_confirmation(
            next_confirmation(Confirmation::Idle, ConfirmationEvent::Requested(parameters)),
            ConfirmationEvent::TokenResolved(Ok(None)),
        ) == Confirmation::Done(ConfirmationReply::Unauthorized),
        reply_to(parameters, Ok(None), stored) == Confirmation::Done(
            ConfirmationReply::Unauthorized,
        ),
        ConfirmationReply::Unauthorized.status() == STATUS_UNAUTHORIZED,
{
}

/// A token that resolves is answered with `Confirmed` once the status is
/// stored, and what is stored is `Confirmed`, whatever the status was: so a
/// second request with the same token is answered as the first.
pub proof fn lemma_confirmation_repeats(parameters: Parameters, subscriber_id: Uuid)
    ensures
        next_confirmation(
            next_confirmation(Confirmation::Idle, ConfirmationEvent::Requested(parameters)),
            ConfirmationEvent::TokenResolved(Ok(Some(subscriber_id))),
        ) == (Confirmation::ConfirmingSubscriber {
            subscriber_id,
            status: SubscriptionStatus::Confirmed,
        }),
        reply_to(parameters, Ok(Some(subscriber_id)), Ok(())) == Confirmation::Done(
            ConfirmationReply::Confirmed,
        ),
        ConfirmationReply::Confirmed.status() == STATUS_OK,
{
}

/// A failure of the store is answered as such, and never as an unknown
/// token.
pub proof fn lemma_storage_failure_is_internal(parameters: Parameters, subscriber_id: Uuid)
    ensures
        reply_to(parameters, Err(StorageFailure), Ok(())) == Confirmation::Done(
            ConfirmationReply::InternalServerError,
        ),
        reply_to(parameters, Ok(Some(subscriber_id)), Err(StorageFailure)) == Confirmation::Done(
            ConfirmationReply::InternalServerError,
        ),
{
}

/// The status of a subscriber is stored only for a token that resolved to
/// that subscriber.
pub proof fn lemma_confirmation_needs_token(state: Confirmation, event: ConfirmationEvent)
    requires
        !(state is ConfirmingSubscriber),
        next_confirmation(state, event) is ConfirmingSubscriber,
    ensures
        state is ResolvingToken,
        event matches ConfirmationEvent::TokenResolved(Ok(Some(subscriber_id)))
            && next_confirmation(state, event) == (Confirmation::ConfirmingSubscriber {
            subscriber_id,
            status: SubscriptionStatus::Confirmed,
        }),
{
}

} // verus!
