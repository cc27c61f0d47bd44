//! The two states of a subscription.

use vstd::prelude::*;

verus! {

/// Whether a subscriber has proved control of the address. A subscription
/// starts out pending, and the only change it ever sees is its confirmation.
#[derive(Clone, Copy, Debug, PartialEq, Eq, Structural)]
pub enum SubscriptionStatus {
    PendingConfirmation,
    Confirmed,
}

impl SubscriptionStatus {
    /// The status of a subscription that was just created.
    pub open spec fn initial() -> SubscriptionStatus {
        SubscriptionStatus::PendingConfirmation
    }

    /// The status after a confirmation.
    pub open spec fn confirmed(self) -> SubscriptionStatus {
        SubscriptionStatus::Confirmed
    }

    /// The word that the store keeps for this status.
    pub open spec fn word(self) -> Seq<char> {
        match self {
            SubscriptionStatus::PendingConfirmation => "pending_confirmation"@,
            SubscriptionStatus::Confirmed => "confirmed"@,
        }
    }

    /// The status of a subscription that was just created.
    pub fn new() -> (status: SubscriptionStatus)
        ensures
            status == SubscriptionStatus::initial(),
    {
        SubscriptionStatus::PendingConfirmation
    }

    /// Confirms the subscription, whatever its status was.
    pub fn confirm(self) -> (status: SubscriptionStatus)
        ensures
            status == self.confirmed(),
    {
        SubscriptionStatus::Confirmed
    }

    /// The word that the store keeps for this status.
    pub fn as_str(&self) -> (word: &'static str)
        ensures
            word@ == self.word(),
    {
        match self {
            SubscriptionStatus::PendingConfirmation => "pending_confirmation",
            SubscriptionStatus::Confirmed => "confirmed",
        }
    }
}

/// Confirming is idempotent: a second confirmation changes nothing.
pub proof fn lemma_confirmation_is_idempotent(status: SubscriptionStatus)
    ensures
        status.confirmed().confirmed() == status.confirmed(),
{
}

/// No confirmation leads back to the pending state.
pub proof fn lemma_confirmation_is_final(status: SubscriptionStatus)
    ensures
        status.confirmed() != SubscriptionStatus::PendingConfirmation,
        status.confirmed() == SubscriptionStatus::Confirmed,
{
}

/// The two states are kept under different words.
pub proof fn lemma_status_words_differ()
    ensures
        SubscriptionStatus::PendingConfirmation.word() != SubscriptionStatus::Confirmed.word(),
{
    reveal_strlit("pending_confirmation");
    reveal_strlit("confirmed");
    assert(SubscriptionStatus::PendingConfirmation.word().len() == 20);
    assert(SubscriptionStatus::Confirmed.word().len() == 9);
}

} // verus!
