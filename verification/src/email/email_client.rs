//! The request for one e-mail, the transport that delivers it, and the
//! service that knows who the sender is.

use crate::domain::email::Email;
use crate::domain::subscriber_email::SubscriberEmail;
use crate::error::{error_chain, error_chain_fmt, Fault, FaultView};
use vstd::prelude::*;

verus! {

/// One e-mail as plain text: recipient, subject, and the two bodies.
pub struct EmailView {
    pub to: Seq<char>,
    pub subject: Seq<char>,
    pub html_content: Seq<char>,
    pub text_content: Seq<char>,
}

/// A request to send one e-mail, borrowed from whoever composed it.
#[derive(Debug, PartialEq, Clone, Copy)]
pub struct SendEmailRequest<'a> {
    pub to: &'a SubscriberEmail,
    pub subject: &'a str,
    pub html_content: &'a str,
    pub text_content: &'a str,
}

impl<'a> View for SendEmailRequest<'a> {
    type V = EmailView;

    open spec fn view(&self) -> EmailView {
        EmailView {
            to: self.to@,
            subject: self.subject@,
            html_content: self.html_content@,
            text_content: self.text_content@,
        }
    }
}

/// An e-mail that is ready to be handed to the transport.
#[derive(Debug)]
pub struct OutgoingEmail {
    pub to: SubscriberEmail,
    pub subject: String,
    pub html_content: String,
    pub text_content: String,
}

impl View for OutgoingEmail {
    type V = EmailView;

    open spec fn view(&self) -> EmailView {
        EmailView {
            to: self.to@,
            subject: self.subject@,
            html_content: self.html_content@,
            text_content: self.text_content@,
        }
    }
}

impl OutgoingEmail {
    /// The request that asks a transport for this e-mail.
    pub fn request(&self) -> (request: SendEmailRequest<'_>)
        ensures
            request@ == self@,
    {
        SendEmailRequest {
            to: &self.to,
            subject: self.subject.as_str(),
            html_content: self.html_content.as_str(),
            text_content: self.text_content.as_str(),
        }
    }
}

/// A transport that delivers one e-mail at a time. Nothing is known of an
/// implementation but what it answers: delivered, or the fault that stopped it.
pub trait EmailClient: Sync + Send {
    fn send_email(&self, sender_email: &Email, request: SendEmailRequest<'_>) -> Result<(), Fault>;
}

/// Whoever can hand out a transport, from whichever thread it is asked.
pub trait EmailClientProvider<T: EmailClient>: Sync + Send {
    fn email_client(&self) -> T;
}

/// The transport could not deliver an e-mail. The error speaks with the voice
/// of the fault it wraps: same message, same causes.
pub enum EmailClientError {
    SendEmailError(Fault),
}

impl View for EmailClientError {
    type V = FaultView;

    open spec fn view(&self) -> FaultView {
        match self {
            EmailClientError::SendEmailError(fault) => fault@,
        }
    }
}

impl EmailClientError {
    /// The message of the error: that of the transport's fault.
    pub fn message(&self) -> (message: String)
        ensures
            message@ == self@.message,
    {
        match self {
            EmailClientError::SendEmailError(fault) => fault.message.clone(),
        }
    }

    /// The error with all its causes, printed as a chain.
    pub fn chain_string(&self) -> (out: String)
        ensures
            out@ == error_chain(self@.message, self@.causes),
    {
        match self {
            EmailClientError::SendEmailError(fault) => error_chain_fmt(
                fault.message.as_str(),
                &fault.causes,
            ),
        }
    }

    /// The fault that the transport reported.
    pub fn into_fault(self) -> (fault: Fault)
        ensures
            self == EmailClientError::SendEmailError(fault),
            fault@ == self@,
    {
        match self {
            EmailClientError::SendEmailError(fault) => fault,
        }
    }
}

/// What the service reports for an answer of the transport: success for a
/// delivery, and the transport's fault, untouched, for a failure.
pub open spec fn service_outcome(reply: Result<(), Fault>) -> Result<(), EmailClientError> {
    match reply {
        Ok(()) => Ok(()),
        Err(fault) => Err(EmailClientError::SendEmailError(fault)),
    }
}

/// Whether `reply` is what the transport answered when it was handed
/// `request` to send from `sender`.
pub open spec fn answered<C: EmailClient>(
    email_client: &C,
    sender: Email,
    request: SendEmailRequest<'_>,
    reply: Result<(), Fault>,
) -> bool {
    call_ensures(C::send_email, (email_client, &sender, request), reply)
}

/// Whether `reply` is what the transport answered when it was handed the
/// e-mail `email` to send from `sender`.
pub open spec fn transport_answered<C: EmailClient>(
    email_client: &C,
    sender: Email,
    email: EmailView,
    reply: Result<(), Fault>,
) -> bool {
    exists|request: SendEmailRequest<'_>|
        request@ == email && #[trigger] answered(email_client, sender, request, reply)
}

/// Whether the transport accepted the e-mail `email` when it was handed it
/// to send from `sender`.
pub open spec fn transport_accepted<C: EmailClient>(
    email_client: &C,
    sender: Email,
    email: EmailView,
) -> bool {
    exists|reply: Result<(), Fault>|
        reply is Ok && #[trigger] transport_answered(email_client, sender, email, reply)
}

/// Sends e-mail on behalf of one fixed sender.
pub struct EmailService {
    sender_email: Email,
}

impl EmailService {
    /// The address that this service sends from.
    pub closed spec fn sender(&self) -> Seq<char> {
        self.sender_email@
    }

    /// The sender that this service hands to the transport.
    pub closed spec fn sender_value(&self) -> Email {
        self.sender_email
    }

    /// A service that sends from `sender`.
    pub fn new(sender: Email) -> (service: Self)
        ensures
            service.sender_value() == sender,
            service.sender() == sender@,
    {
        EmailService { sender_email: sender }
    }

    /// The address that this service sends from.
    pub fn sender_email(&self) -> (sender: &Email)
        ensures
            *sender == self.sender_value(),
            sender@ == self.sender(),
    {
        &self.sender_email
    }

    /// Hands the request to the transport, with this service's sender, and
    /// reports what the transport answered: the result is the
    /// [`service_outcome`] of an answer that the transport gave to exactly
    /// this request from exactly this sender. Whether the e-mail is
    /// delivered is for the transport to say.
    pub fn send_email<C: EmailClient>(
        &self,
        email_client: &C,
        send_email_request: SendEmailRequest<'_>,
    ) -> (r: Result<(), EmailClientError>)
        ensures
            exists|reply: Result<(), Fault>| #[trigger]
                answered(email_client, self.sender_value(), send_email_request, reply) && r
                    == service_outcome(reply),
    {
        let reply = email_client.send_email(&self.sender_email, send_email_request);
        assert(answered(email_client, self.sender_value(), send_email_request, reply));
        EmailService::outcome(reply)
    }

    /// What the service reports for an answer of the transport: success for a
    /// delivery, and the transport's fault, untouched, for a failure.
    pub fn outcome(reply: Result<(), Fault>) -> (r: Result<(), EmailClientError>)
        ensures
            r == service_outcome(reply),
            r is Ok <==> reply is Ok,
            r matches Err(e) ==> reply matches Err(fault) && e@ == fault@,
    {
        match reply {
            Ok(()) => Ok(()),
            Err(fault) => Err(EmailClientError::SendEmailError(fault)),
        }
    }
}

} // verus!
