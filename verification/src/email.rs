//! Outgoing mail: what is asked of a transport, and what comes back.

pub mod email_client;
