//! Validated values: every one of them is checked once, when it is parsed,
//! and cannot be changed afterwards.

pub mod email;
pub mod new_subscriber;
pub mod subscriber_email;
pub mod subscriber_name;

pub use email::Email;
pub use new_subscriber::NewSubscriber;
pub use subscriber_email::SubscriberEmail;
pub use subscriber_name::SubscriberName;
