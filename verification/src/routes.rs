//! The three operations of the mailing list, each as a sequence of decisions:
//! the caller does the outside work that a decision asks for and reports
//! back how it went.

pub mod newsletters;
pub mod subscriptions;
pub mod subscriptions_confirm;
