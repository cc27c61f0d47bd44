//! What a visitor submits to subscribe, once it is validated.

use crate::domain::subscriber_email::SubscriberEmail;
use crate::domain::subscriber_name::SubscriberName;
use vstd::prelude::*;

verus! {

/// A visitor who asked to subscribe, under a valid name and address.
pub struct NewSubscriber {
    pub email: SubscriberEmail,
    pub name: SubscriberName,
}

} // verus!
