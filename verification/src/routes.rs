//! The decisions behind each endpoint of the service.
//!
//! An endpoint that has to wait for outside work, such as a query or the
//! delivery of an email, is a state machine here: a function takes the state
//! and what the outside work came to, and gives the next state, which names
//! the outside work that is due next. The caller performs that work and comes
//! back with its result.

use vstd::prelude::*;

pub mod confirm_subscription;
pub mod login;
pub mod newsletters;
pub mod subscriptions;

verus! {

/// The status of a reply to a request that was carried out.
pub const STATUS_OK: u16 = 200;

/// The status of a reply that sends the client to another page.
pub const STATUS_SEE_OTHER: u16 = 303;

/// The status of a reply to a request whose input is malformed.
pub const STATUS_BAD_REQUEST: u16 = 400;

/// The status of a reply to a request that did not prove who sent it.
pub const STATUS_UNAUTHORIZED: u16 = 401;

/// The status of a reply to a request that failed for no fault of the client.
pub const STATUS_INTERNAL_SERVER_ERROR: u16 = 500;

/// The relational store did not carry out what it was asked to.
#[derive(Clone, Copy, Debug, PartialEq, Eq, Structural)]
pub struct StorageFailure;

/// The email sender did not accept a message.
#[derive(Clone, Copy, Debug, PartialEq, Eq, Structural)]
pub struct DeliveryFailure;

} // verus!
