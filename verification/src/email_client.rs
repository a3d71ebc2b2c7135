//! Sending through a transport that the service owns.

use crate::domain::subscriber_email::SubscriberEmail;
use vstd::prelude::*;

verus! {

/// A transport that takes an e-mail piece by piece. Nothing is known of an
/// implementation but what it answers: delivered, or why not.
pub trait EmailSender {
    fn send_email(
        &self,
        sender_email: &SubscriberEmail,
        recipient_email: &SubscriberEmail,
        subject: &str,
        html_content: &str,
        text_content: &str,
    ) -> Result<(), String>;
}

/// Sends e-mail through its own transport, on behalf of one fixed sender.
pub struct EmailService<T: EmailSender + Send + Sync> {
    email_sender: T,
    sender_email: SubscriberEmail,
}

impl<T: EmailSender + Send + Sync> EmailService<T> {
    /// The address that this service sends from.
    pub closed spec fn sender(&self) -> Seq<char> {
        self.sender_email@
    }

    /// The transport that this service sends through.
    pub closed spec fn transport(&self) -> T {
        self.email_sender
    }

    /// The sender that this service hands to the transport.
    pub closed spec fn sender_value(&self) -> SubscriberEmail {
        self.sender_email
    }

    /// A service that sends from `sender` through `email_sender`.
    pub fn new(email_sender: T, sender: SubscriberEmail) -> (service: Self)
        ensures
            service.transport() == email_sender,
            service.sender_value() == sender,
            service.sender() == sender@,
    {
        EmailService { email_sender, sender_email: sender }
    }

    /// Hands the e-mail to the transport, with this service's sender, and
    /// gives back what the transport answered: the result is an answer that
    /// the service's own transport gave to exactly these pieces, in this
    /// order, from exactly this sender.
    pub fn send_email(
        &self,
        recipient_email: &SubscriberEmail,
        subject: &str,
        html_content: &str,
        text_content: &str,
    ) -> (r: Result<(), String>)
        ensures
            call_ensures(
                T::send_email,
                (
                    &self.transport(),
                    &self.sender_value(),
                    recipient_email,
                    subject,
                    html_content,
                    text_content,
                ),
                r,
            ),
    {
        self.email_sender.send_email(
            &self.sender_email,
            recipient_email,
            subject,
            html_content,
            text_content,
        )
    }
}

} // verus!
