//! Validated values that describe a subscriber.

pub mod new_subscriber;
pub mod subscriber_email;
pub mod subscriber_name;
pub mod subscription_status;

pub use new_subscriber::NewSubscriber;
pub use subscriber_email::SubscriberEmail;
pub use subscriber_name::SubscriberName;
pub use subscription_status::SubscriptionStatus;
