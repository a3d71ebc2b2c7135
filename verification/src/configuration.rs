//! The settings that the core of the application reads.

use crate::domain::email::is_valid_email;
use crate::domain::subscriber_email::{subscriber_email_error, SubscriberEmail};
use vstd::prelude::*;

verus! {

/// Where the application listens.
#[derive(Debug)]
pub struct ApplicationSettings {
    pub port: u16,
    pub host: String,
}

/// Who outgoing mail is sent from.
#[derive(Debug)]
pub struct EmailClientSettings {
    pub sender_email: String,
}

impl Clone for ApplicationSettings {
    fn clone(&self) -> (r: Self)
        ensures
            r.port == self.port,
            r.host@ == self.host@,
    {
        ApplicationSettings { port: self.port, host: self.host.clone() }
    }
}

impl Clone for EmailClientSettings {
    fn clone(&self) -> (r: Self)
        ensures
            r.sender_email@ == self.sender_email@,
    {
        EmailClientSettings { sender_email: self.sender_email.clone() }
    }
}

impl EmailClientSettings {
    /// The configured sender, if it is a valid e-mail address.
    pub fn sender(&self) -> (r: Result<SubscriberEmail, String>)
        ensures
            r is Ok <==> is_valid_email(self.sender_email@),
            r matches Ok(email) ==> email@ == self.sender_email@,
            r matches Err(reason) ==> reason@ == subscriber_email_error(self.sender_email@),
    {
        SubscriberEmail::parse(self.sender_email.clone())
    }
}

} // verus!
