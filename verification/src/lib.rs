//! The core of a mailing list: visitors subscribe with a name and an e-mail
//! address, confirm through a link that they are sent, and from then on
//! receive the issues of a newsletter.
//!
//! The crate does no input or output of its own. Each of the three
//! operations is a short sequence of decisions ([`routes`]): a step names
//! the outside work that comes next (a statement for the store, an e-mail
//! for the transport), the caller does it and hands the outcome back. What
//! the decisions amount to is stated over plain values and proved:
//!
//! - [`domain`]: names and addresses that are validated once and cannot be
//!   changed afterwards;
//! - [`routes`]: subscribing, confirming and publishing, step by step;
//! - [`store`]: what the store holds, what each of its operations does, and
//!   a store in memory that does the same;
//! - [`service`]: the three operations from start to end on a store in
//!   memory;
//! - [`email`], [`email_client`]: requests to a transport;
//! - [`error`]: failures and their cause chains;
//! - [`configuration`], [`environment`], [`startup`], [`bootstrap`]: what
//!   the surrounding application configures.

pub mod bootstrap;
pub mod configuration;
pub mod domain;
pub mod email;
pub mod email_client;
pub mod environment;
pub mod error;
pub mod routes;
pub mod service;
pub mod startup;
pub mod store;
pub mod text;
