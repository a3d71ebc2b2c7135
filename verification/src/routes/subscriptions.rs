//! Subscribing: validate what was submitted, keep the subscriber and a fresh
//! confirmation token in one transaction, and only then send the e-mail
//! that carries the confirmation link.
//!
//! [`subscribe`] validates the form and starts a [`Subscription`]; each step
//! of it asks for one piece of outside work and takes the outcome back.

use crate::domain::email::is_valid_email;
use crate::domain::new_subscriber::{NewSubscriber, NewSubscriberView};
use crate::domain::subscriber_email::{subscriber_email_error, SubscriberEmail};
use crate::domain::subscriber_name::{is_valid_name, name_error, SubscriberName};
use crate::email::email_client::{
    answered,
    service_outcome,
    transport_answered,
    EmailClient,
    EmailClientError,
    EmailService,
    EmailView,
    OutgoingEmail,
};
use crate::error::{
    error_chain,
    error_chain_fmt,
    outcome_view,
    texts,
    FailureKind,
    Fault,
    FaultView,
};
use crate::startup::ApplicationBaseUrl;
use crate::store::SubscriberId;
use crate::text::{contains_text, lemma_contains_infix};
use rand::distributions::Alphanumeric;
use rand::Rng;
use uuid::Uuid;
use vstd::prelude::*;
use vstd::string::*;

verus! {

/// The number of characters of a confirmation token.
pub const TOKEN_LENGTH: usize = 25;

/// The characters that tokens are drawn from: the ASCII letters and digits.
pub open spec fn is_token_char(c: char) -> bool {
    let u = c as u32;
    ||| 0x30 <= u <= 0x39
    ||| 0x41 <= u <= 0x5A
    ||| 0x61 <= u <= 0x7A
}

/// A well-formed confirmation token: 25 letters and digits.
pub open spec fn is_token(s: Seq<char>) -> bool {
    &&& s.len() == TOKEN_LENGTH
    &&& forall|i: int| 0 <= i < s.len() ==> is_token_char(#[trigger] s[i])
}

/// Draws one character with `rand::Rng::sample` from the distribution
/// `rand::distributions::Alphanumeric`, on the generator of the current
/// thread, `rand::thread_rng()`, which the operating system seeds.
///
/// Trusted: the distribution picks a byte out of the 62 ASCII letters and
/// digits, so the character is one of them; which one is left open, and two
/// calls need not agree. The first call on a thread does not return if the
/// operating system has no randomness to give.
#[verifier::external_body]
fn sample_alphanumeric() -> (c: char)
    ensures
        is_token_char(c),
{
    char::from(rand::thread_rng().sample(Alphanumeric))
}

/// Makes a fresh identifier with `uuid::Uuid::new_v4`, a random UUID, taken
/// as the number it encodes (`Uuid::as_u128`).
///
/// Trusted, and nothing is claimed of the outcome.
#[verifier::external_body]
fn new_subscriber_id() -> (id: SubscriberId) {
    SubscriberId(Uuid::new_v4().as_u128())
}

/// A fresh confirmation token: 25 characters, each drawn at random from the
/// ASCII letters and digits.
pub fn generate_subscription_token() -> (token: String)
    ensures
        is_token(token@),
{
    let mut token = String::new();
    let mut n: usize = 0;
    while n < TOKEN_LENGTH
        invariant
            n <= TOKEN_LENGTH,
            token@.len() == n,
            forall|i: int| 0 <= i < n ==> is_token_char(#[trigger] token@[i]),
        decreases TOKEN_LENGTH - n,
    {
        let c = sample_alphanumeric();
        token.push(c);
        n = n + 1;
    }
    token
}

/// The link that confirms the subscription behind `token`.
pub open spec fn confirmation_link(base_url: Seq<char>, token: Seq<char>) -> Seq<char> {
    base_url + "subscriptions/confirm?subscription_token="@ + token
}

/// The HTML body of the confirmation e-mail.
pub open spec fn confirmation_html(link: Seq<char>) -> Seq<char> {
    "Welcome to our newsletter!<br />Click <a href=\""@ + link
        + "\"here</a> to confirm your subscription."@
}

/// The plain-text body of the confirmation e-mail.
pub open spec fn confirmation_text(link: Seq<char>) -> Seq<char> {
    "Welcome to our newsletter!\nVisit "@ + link + " to confirm your subscription."@
}

/// The confirmation e-mail for `to`: the subject is "Welcome", and both
/// bodies carry the same link.
pub open spec fn confirmation_email_spec(
    to: Seq<char>,
    base_url: Seq<char>,
    token: Seq<char>,
) -> EmailView {
    EmailView {
        to,
        subject: "Welcome"@,
        html_content: confirmation_html(confirmation_link(base_url, token)),
        text_content: confirmation_text(confirmation_link(base_url, token)),
    }
}

/// Both bodies of a confirmation e-mail hold the confirmation link, whole.
pub proof fn lemma_bodies_carry_the_link(link: Seq<char>)
    ensures
        contains_text(confirmation_html(link), link),
        contains_text(confirmation_text(link), link),
{
    lemma_contains_infix(
        "Welcome to our newsletter!<br />Click <a href=\""@,
        link,
        "\"here</a> to confirm your subscription."@,
    );
    lemma_contains_infix(
        "Welcome to our newsletter!\nVisit "@,
        link,
        " to confirm your subscription."@,
    );
}

/// Composes the confirmation e-mail for `to`.
pub fn confirmation_email(to: SubscriberEmail, base_url: &str, subscription_token: &str) -> (email:
    OutgoingEmail)
    ensures
        email@ == confirmation_email_spec(to@, base_url@, subscription_token@),
        contains_text(email@.html_content, confirmation_link(base_url@, subscription_token@)),
        contains_text(email@.text_content, confirmation_link(base_url@, subscription_token@)),
{
    let mut confirmation_link = String::from_str(base_url);
    confirmation_link.append("subscriptions/confirm?subscription_token=");
    confirmation_link.append(subscription_token);

    let mut html_content = String::from_str("Welcome to our newsletter!<br />Click <a href=\"");
    html_content.append(confirmation_link.as_str());
    html_content.append("\"here</a> to confirm your subscription.");

    let mut text_content = String::from_str("Welcome to our newsletter!\nVisit ");
    text_content.append(confirmation_link.as_str());
    text_content.append(" to confirm your subscription.");

    proof {
        lemma_bodies_carry_the_link(confirmation_link@);
    }
    OutgoingEmail { to, subject: String::from_str("Welcome"), html_content, text_content }
}

/// Composes the confirmation e-mail for a new subscriber and hands it to the
/// transport: the result is the outcome of an answer that the transport
/// gave to that e-mail, from the sender of the service. Whether it is
/// delivered is for the transport to say.
pub fn send_confirmation_email<C: EmailClient>(
    new_subscriber: NewSubscriber,
    email_service: &EmailService,
    email_client: &C,
    base_url: &str,
    subscription_token: &str,
) -> (r: Result<(), EmailClientError>)
    ensures
        exists|reply: Result<(), Fault>| #[trigger]
            transport_answered(
                email_client,
                email_service.sender_value(),
                confirmation_email_spec(new_subscriber.email@, base_url@, subscription_token@),
                reply,
            ) && r == service_outcome(reply),
{
    let email = confirmation_email(new_subscriber.email, base_url, subscription_token);
    let request = email.request();
    let r = email_service.send_email(email_client, request);
    proof {
        let reply = choose|reply: Result<(), Fault>| #[trigger]
            answered(email_client, email_service.sender_value(), request, reply) && r
                == service_outcome(reply);
        assert(answered(email_client, email_service.sender_value(), request, reply));
        assert(transport_answered(
            email_client,
            email_service.sender_value(),
            confirmation_email_spec(new_subscriber.email@, base_url@, subscription_token@),
            reply,
        ));
    }
    r
}

/// What a visitor submits in order to subscribe.
#[derive(Debug)]
pub struct FormData {
    pub email: String,
    pub name: String,
}

/// A [`FormData`] as plain text.
pub struct FormView {
    pub email: Seq<char>,
    pub name: Seq<char>,
}

impl View for FormData {
    type V = FormView;

    open spec fn view(&self) -> FormView {
        FormView { email: self.email@, name: self.name@ }
    }
}

/// The verdict on a form: the name is looked at first, then the address, and
/// the first of them that is not valid gives the reason.
pub open spec fn new_subscriber_spec(form: FormView) -> Result<NewSubscriberView, Seq<char>> {
    if !is_valid_name(form.name) {
        Err(name_error(form.name))
    } else if !is_valid_email(form.email) {
        Err(subscriber_email_error(form.email))
    } else {
        Ok(NewSubscriberView { email: form.email, name: form.name })
    }
}

impl NewSubscriber {
    /// Validates a submitted form.
    pub fn try_from(value: FormData) -> (r: Result<NewSubscriber, String>)
        ensures
            r is Ok <==> is_valid_name(value@.name) && is_valid_email(value@.email),
            r matches Ok(new_subscriber) ==> Ok::<NewSubscriberView, Seq<char>>(new_subscriber@)
                == new_subscriber_spec(value@),
            r matches Err(reason) ==> Err::<NewSubscriberView, Seq<char>>(reason@)
                == new_subscriber_spec(value@),
    {
        let name = match SubscriberName::parse(value.name) {
            Ok(name) => name,
            Err(reason) => {
                return Err(reason);
            },
        };
        let email = match SubscriberEmail::parse(value.email) {
            Ok(email) => email,
            Err(reason) => {
                return Err(reason);
            },
        };
        Ok(NewSubscriber { email, name })
    }
}

/// The store failed while it was keeping a confirmation token.
#[derive(Debug)]
pub struct StoreTokenError(pub Fault);

impl View for StoreTokenError {
    type V = FaultView;

    open spec fn view(&self) -> FaultView {
        self.0@
    }
}

/// The message of every [`StoreTokenError`].
pub open spec fn store_token_message() -> Seq<char> {
    "A database error was encountered while trying to store a subscription token."@
}

impl StoreTokenError {
    /// The message of the error.
    pub fn message(&self) -> (message: String)
        ensures
            message@ == store_token_message(),
    {
        String::from_str(
            "A database error was encountered while trying to store a subscription token.",
        )
    }

    /// The error with all its causes, printed as a chain.
    pub fn chain_string(&self) -> (out: String)
        ensures
            out@ == error_chain(store_token_message(), self@.chain()),
    {
        let message = self.message();
        let causes = self.0.chain();
        error_chain_fmt(message.as_str(), &causes)
    }
}

/// Why a subscription did not go through.
pub enum SubscribeError {
    /// The form was not valid; the text says what was wrong with it.
    ValidationError(String),
    /// The confirmation token could not be kept.
    StoreTokenError(StoreTokenError),
    /// The subscriber and the token are kept, but the confirmation e-mail
    /// could not be sent.
    SendEmailError(EmailClientError),
    /// No transaction could be opened.
    PoolError(Fault),
    /// The subscriber could not be kept.
    InsertSubscriberError(Fault),
    /// The transaction could not be committed.
    TransactionCommitError(Fault),
}

/// A [`SubscribeError`] as plain text.
pub enum SubscribeErrorView {
    ValidationError(Seq<char>),
    StoreTokenError(FaultView),
    SendEmailError(FaultView),
    PoolError(FaultView),
    InsertSubscriberError(FaultView),
    TransactionCommitError(FaultView),
}

impl View for SubscribeError {
    type V = SubscribeErrorView;

    open spec fn view(&self) -> SubscribeErrorView {
        match self {
            SubscribeError::ValidationError(reason) => SubscribeErrorView::ValidationError(reason@),
            SubscribeError::StoreTokenError(error) => SubscribeErrorView::StoreTokenError(error@),
            SubscribeError::SendEmailError(error) => SubscribeErrorView::SendEmailError(error@),
            SubscribeError::PoolError(fault) => SubscribeErrorView::PoolError(fault@),
            SubscribeError::InsertSubscriberError(fault) => SubscribeErrorView::InsertSubscriberError(
                fault@,
            ),
            SubscribeError::TransactionCommitError(fault) => SubscribeErrorView::TransactionCommitError(
                fault@,
            ),
        }
    }
}

impl SubscribeErrorView {
    /// The kind of failure that the error stands for. A failure to send the
    /// confirmation e-mail stays apart from a failure of the store.
    pub open spec fn kind(self) -> FailureKind {
        match self {
            SubscribeErrorView::ValidationError(_) => FailureKind::ValidationFailed,
            SubscribeErrorView::SendEmailError(_) => FailureKind::DispatchFailed,
            SubscribeErrorView::StoreTokenError(_) => FailureKind::PersistenceFailed,
            SubscribeErrorView::PoolError(_) => FailureKind::PersistenceFailed,
            SubscribeErrorView::InsertSubscriberError(_) => FailureKind::PersistenceFailed,
            SubscribeErrorView::TransactionCommitError(_) => FailureKind::PersistenceFailed,
        }
    }

    /// The message of the error.
    pub open spec fn message(self) -> Seq<char> {
        match self {
            SubscribeErrorView::ValidationError(reason) => reason,
            SubscribeErrorView::StoreTokenError(_) =>
                "Failed to store the confirmation token for a new subscriber."@,
            SubscribeErrorView::SendEmailError(_) => "Failed to send a confirmation email."@,
            SubscribeErrorView::PoolError(_) =>
                "Failed to acquire a Postgres connection from the pool."@,
            SubscribeErrorView::InsertSubscriberError(_) =>
                "Failed to insert new subscriber in the database."@,
            SubscribeErrorView::TransactionCommitError(_) =>
                "Failed to commit SQL transaction to store a new subscriber."@,
        }
    }

    /// The messages of what led to the error, nearest cause first. A form
    /// that is not valid has no cause; a token that could not be kept has
    /// the store's own account of it between itself and the fault.
    pub open spec fn causes(self) -> Seq<Seq<char>> {
        match self {
            SubscribeErrorView::ValidationError(_) => Seq::empty(),
            SubscribeErrorView::StoreTokenError(fault) => seq![store_token_message()]
                + fault.chain(),
            SubscribeErrorView::SendEmailError(fault) => fault.chain(),
            SubscribeErrorView::PoolError(fault) => fault.chain(),
            SubscribeErrorView::InsertSubscriberError(fault) => fault.chain(),
            SubscribeErrorView::TransactionCommitError(fault) => fault.chain(),
        }
    }
}

impl SubscribeError {
    /// The kind of failure that the error stands for.
    pub fn kind(&self) -> (kind: FailureKind)
        ensures
            kind == self@.kind(),
    {
        match self {
            SubscribeError::ValidationError(_) => FailureKind::ValidationFailed,
            SubscribeError::SendEmailError(_) => FailureKind::DispatchFailed,
            SubscribeError::StoreTokenError(_) => FailureKind::PersistenceFailed,
            SubscribeError::PoolError(_) => FailureKind::PersistenceFailed,
            SubscribeError::InsertSubscriberError(_) => FailureKind::PersistenceFailed,
            SubscribeError::TransactionCommitError(_) => FailureKind::PersistenceFailed,
        }
    }

    /// The HTTP status of the error: a bad request for a form that is not
    /// valid, a server error for everything else.
    pub fn status_code(&self) -> (code: u16)
        ensures
            code == self@.kind().status_code(),
            code == (if self@ is ValidationError {
                400u16
            } else {
                500u16
            }),
    {
        self.kind().status_code()
    }

    /// The message of the error.
    pub fn message(&self) -> (message: String)
        ensures
            message@ == self@.message(),
    {
        match self {
            SubscribeError::ValidationError(reason) => reason.clone(),
            SubscribeError::StoreTokenError(_) => String::from_str(
                "Failed to store the confirmation token for a new subscriber.",
            ),
            SubscribeError::SendEmailError(_) => String::from_str(
                "Failed to send a confirmation email.",
            ),
            SubscribeError::PoolError(_) => String::from_str(
                "Failed to acquire a Postgres connection from the pool.",
            ),
            SubscribeError::InsertSubscriberError(_) => String::from_str(
                "Failed to insert new subscriber in the database.",
            ),
            SubscribeError::TransactionCommitError(_) => String::from_str(
                "Failed to commit SQL transaction to store a new subscriber.",
            ),
        }
    }

    /// The messages of what led to the error, nearest cause first.
    pub fn causes(&self) -> (causes: Vec<String>)
        ensures
            texts(causes@) == self@.causes(),
    {
        match self {
            SubscribeError::ValidationError(_) => {
                let causes: Vec<String> = Vec::new();
                assert(texts(causes@) =~= Seq::<Seq<char>>::empty());
                causes
            },
            SubscribeError::StoreTokenError(error) => {
                let inner = error.0.chain();
                let mut causes: Vec<String> = Vec::new();
                causes.push(error.message());
                let mut i: usize = 0;
                while i < inner.len()
                    invariant
                        i <= inner.len(),
                        causes.len() == i + 1,
                        causes[0]@ == store_token_message(),
                        forall|j: int| 0 <= j < i ==> causes[j + 1]@ == inner[j]@,
                    decreases inner.len() - i,
                {
                    causes.push(inner[i].clone());
                    i = i + 1;
                }
                assert(texts(causes@) =~= seq![store_token_message()] + texts(inner@));
                causes
            },
            SubscribeError::SendEmailError(EmailClientError::SendEmailError(fault)) => fault.chain(),
            SubscribeError::PoolError(fault) => fault.chain(),
            SubscribeError::InsertSubscriberError(fault) => fault.chain(),
            SubscribeError::TransactionCommitError(fault) => fault.chain(),
        }
    }

    /// The message of the nearest cause, if the error has one.
    pub fn source(&self) -> (source: Option<String>)
        ensures
            source is Some <==> self@.causes().len() > 0,
            source matches Some(message) ==> message@ == self@.causes()[0],
    {
        let causes = self.causes();
        if causes.len() > 0 {
            proof {
                assert(texts(causes@)[0] == causes[0]@);
            }
            Some(causes[0].clone())
        } else {
            None
        }
    }

    /// The error with all its causes, printed as a chain.
    pub fn chain_string(&self) -> (out: String)
        ensures
            out@ == error_chain(self@.message(), self@.causes()),
    {
        let message = self.message();
        let causes = self.causes();
        error_chain_fmt(message.as_str(), &causes)
    }
}

impl From<StoreTokenError> for SubscribeError {
    fn from(e: StoreTokenError) -> (error: Self) {
        Self::StoreTokenError(e)
    }
}

impl vstd::std_specs::convert::FromSpecImpl<StoreTokenError> for SubscribeError {
    open spec fn obeys_from_spec() -> bool {
        true
    }

    open spec fn from_spec(e: StoreTokenError) -> Self {
        Self::StoreTokenError(e)
    }
}

impl From<EmailClientError> for SubscribeError {
    fn from(e: EmailClientError) -> (error: Self) {
        Self::SendEmailError(e)
    }
}

impl vstd::std_specs::convert::FromSpecImpl<EmailClientError> for SubscribeError {
    open spec fn obeys_from_spec() -> bool {
        true
    }

    open spec fn from_spec(e: EmailClientError) -> Self {
        Self::SendEmailError(e)
    }
}

impl From<String> for SubscribeError {
    fn from(e: String) -> (error: Self) {
        Self::ValidationError(e)
    }
}

impl vstd::std_specs::convert::FromSpecImpl<String> for SubscribeError {
    open spec fn obeys_from_spec() -> bool {
        true
    }

    open spec fn from_spec(e: String) -> Self {
        Self::ValidationError(e)
    }
}

/// The outside work that a subscription waits for.
pub enum SubscribeStageView {
    /// A transaction is being opened.
    Beginning,
    /// The subscriber is being kept.
    InsertingSubscriber,
    /// The token is being kept.
    StoringToken,
    /// The transaction is being committed.
    Committing,
    /// The transaction is being rolled back, because of the error given.
    RollingBack(SubscribeErrorView),
    /// The confirmation e-mail is being sent.
    Sending,
}

/// A subscription under way, as plain text.
pub struct SubscriptionView {
    pub subscriber: NewSubscriberView,
    pub subscription_token: Seq<char>,
    pub subscriber_id: SubscriberId,
    pub base_url: Seq<char>,
    pub stage: SubscribeStageView,
}

/// The outside work that a subscription asks for.
pub enum SubscribeActionView {
    /// Open a transaction.
    BeginTransaction,
    /// In the transaction, keep a subscriber that is pending confirmation.
    InsertSubscriber { subscriber_id: SubscriberId, email: Seq<char>, name: Seq<char> },
    /// In the transaction, keep a token and bind it to the subscriber.
    StoreToken { subscription_token: Seq<char>, subscriber_id: SubscriberId },
    /// Commit the transaction.
    Commit,
    /// Roll the transaction back.
    Rollback,
    /// Send the confirmation e-mail.
    SendEmail(EmailView),
}

/// What happens next in a subscription.
pub enum SubscribeStepView {
    /// Do the work, then report its outcome to the subscription.
    Next(SubscriptionView, SubscribeActionView),
    /// The subscription is over.
    Done(Result<(), SubscribeErrorView>),
}

impl SubscriptionView {
    /// The same subscription at another stage.
    pub open spec fn at(self, stage: SubscribeStageView) -> SubscriptionView {
        SubscriptionView { stage, ..self }
    }

    /// The confirmation e-mail of the subscription.
    pub open spec fn email(self) -> EmailView {
        confirmation_email_spec(self.subscriber.email, self.base_url, self.subscription_token)
    }

    /// The step that follows the outcome of the work that was asked for.
    ///
    /// While the transaction is open, a success leads to the next piece of
    /// work and a failure to a rollback, after which the failure is reported.
    /// The e-mail is asked for when the commit has succeeded, and at no
    /// other point; its failure is reported but undoes nothing.
    pub open spec fn after(self, reply: Result<(), FaultView>) -> SubscribeStepView {
        match self.stage {
            SubscribeStageView::Beginning => match reply {
                Ok(()) => SubscribeStepView::Next(
                    self.at(SubscribeStageView::InsertingSubscriber),
                    SubscribeActionView::InsertSubscriber {
                        subscriber_id: self.subscriber_id,
                        email: self.subscriber.email,
                        name: self.subscriber.name,
                    },
                ),
                Err(fault) => SubscribeStepView::Done(Err(SubscribeErrorView::PoolError(fault))),
            },
            SubscribeStageView::InsertingSubscriber => match reply {
                Ok(()) => SubscribeStepView::Next(
                    self.at(SubscribeStageView::StoringToken),
                    SubscribeActionView::StoreToken {
                        subscription_token: self.subscription_token,
                        subscriber_id: self.subscriber_id,
                    },
                ),
                Err(fault) => SubscribeStepView::Next(
                    self.at(
                        SubscribeStageView::RollingBack(
                            SubscribeErrorView::InsertSubscriberError(fault),
                        ),
                    ),
                    SubscribeActionView::Rollback,
                ),
            },
            SubscribeStageView::StoringToken => match reply {
                Ok(()) => SubscribeStepView::Next(
                    self.at(SubscribeStageView::Committing),
                    SubscribeActionView::Commit,
                ),
                Err(fault) => SubscribeStepView::Next(
                    self.at(
                        SubscribeStageView::RollingBack(SubscribeErrorView::StoreTokenError(fault)),
                    ),
                    SubscribeActionView::Rollback,
                ),
            },
            SubscribeStageView::Committing => match reply {
                Ok(()) => SubscribeStepView::Next(
                    self.at(SubscribeStageView::Sending),
                    SubscribeActionView::SendEmail(self.email()),
                ),
                Err(fault) => SubscribeStepView::Next(
                    self.at(
                        SubscribeStageView::RollingBack(
                            SubscribeErrorView::TransactionCommitError(fault),
                        ),
                    ),
                    SubscribeActionView::Rollback,
                ),
            },
            SubscribeStageView::RollingBack(error) => SubscribeStepView::Done(Err(error)),
            SubscribeStageView::Sending => match reply {
                Ok(()) => SubscribeStepView::Done(Ok(())),
                Err(fault) => SubscribeStepView::Done(Err(SubscribeErrorView::SendEmailError(fault))),
            },
        }
    }
}

/// The first step of a subscription for a validated subscriber: open a
/// transaction.
pub open spec fn subscription_start(
    subscriber: NewSubscriberView,
    subscription_token: Seq<char>,
    subscriber_id: SubscriberId,
    base_url: Seq<char>,
) -> SubscribeStepView {
    SubscribeStepView::Next(
        SubscriptionView {
            subscriber,
            subscription_token,
            subscriber_id,
            base_url,
            stage: SubscribeStageView::Beginning,
        },
        SubscribeActionView::BeginTransaction,
    )
}

/// What a subscription did, seen from outside: the work it asked for, in
/// order, and how it ended (`None` while it still waits for an outcome).
pub struct SubscribeRun {
    pub actions: Seq<SubscribeActionView>,
    pub result: Option<Result<(), SubscribeErrorView>>,
}

/// Carries a subscription on from `step`, answering each piece of work with
/// the next of `replies`, until it ends or the replies run out.
pub open spec fn subscribe_run(
    step: SubscribeStepView,
    replies: Seq<Result<(), FaultView>>,
) -> SubscribeRun
    decreases replies.len(),
{
    match step {
        SubscribeStepView::Done(result) => SubscribeRun {
            actions: Seq::empty(),
            result: Some(result),
        },
        SubscribeStepView::Next(subscription, action) => {
            if replies.len() == 0 {
                SubscribeRun { actions: seq![action], result: None }
            } else {
                let rest = subscribe_run(subscription.after(replies[0]), replies.drop_first());
                SubscribeRun { actions: seq![action] + rest.actions, result: rest.result }
            }
        },
    }
}

/// The work of a subscription that meets no failure, in order: open a
/// transaction, keep the subscriber, keep the token, commit, send the e-mail.
pub open spec fn subscription_actions(
    subscriber: NewSubscriberView,
    subscription_token: Seq<char>,
    subscriber_id: SubscriberId,
    base_url: Seq<char>,
) -> Seq<SubscribeActionView> {
    seq![
        SubscribeActionView::BeginTransaction,
        SubscribeActionView::InsertSubscriber {
            subscriber_id,
            email: subscriber.email,
            name: subscriber.name,
        },
        SubscribeActionView::StoreToken { subscription_token, subscriber_id },
        SubscribeActionView::Commit,
        SubscribeActionView::SendEmail(
            confirmation_email_spec(subscriber.email, base_url, subscription_token),
        ),
    ]
}

/// The error that a failure of the store is reported as, by the piece of
/// work that failed: 0 for the transaction, 1 for the subscriber, 2 for the
/// token, 3 for the commit.
pub open spec fn persistence_error(work: int, fault: FaultView) -> SubscribeErrorView {
    if work == 0 {
        SubscribeErrorView::PoolError(fault)
    } else if work == 1 {
        SubscribeErrorView::InsertSubscriberError(fault)
    } else if work == 2 {
        SubscribeErrorView::StoreTokenError(fault)
    } else {
        SubscribeErrorView::TransactionCommitError(fault)
    }
}

/// The stage that a subscription is in after so many pieces of work went well.
pub open spec fn stage_after(done: int) -> SubscribeStageView {
    if done <= 0 {
        SubscribeStageView::Beginning
    } else if done == 1 {
        SubscribeStageView::InsertingSubscriber
    } else if done == 2 {
        SubscribeStageView::StoringToken
    } else if done == 3 {
        SubscribeStageView::Committing
    } else {
        SubscribeStageView::Sending
    }
}

/// What a subscription does from a given stage on, when the next `n`
/// replies are successes and the one after them, if there is one, a failure.
proof fn lemma_run_from_stage(
    subscription: SubscriptionView,
    done: int,
    replies: Seq<Result<(), FaultView>>,
    n: int,
)
    requires
        0 <= done <= 4,
        0 <= n <= replies.len(),
        forall|i: int| 0 <= i < n ==> #[trigger] replies[i] is Ok,
        n < replies.len() ==> replies[n] is Err,
    ensures
        ({
            let all = subscription_actions(
                subscription.subscriber,
                subscription.subscription_token,
                subscription.subscriber_id,
                subscription.base_url,
            );
            let run = subscribe_run(
                SubscribeStepView::Next(subscription.at(stage_after(done)), all[done]),
                replies,
            );
            let work = done + n;
            &&& work >= 5 ==> run.actions == all.subrange(done, 5) && run.result == Some(
                Ok::<(), SubscribeErrorView>(()),
            )
            &&& work < 5 && n == replies.len() ==> run.actions == all.subrange(done, work + 1)
                && run.result is None
            &&& work == 4 && n < replies.len() ==> run.actions == all.subrange(done, 5)
                && run.result == Some(
                Err::<(), SubscribeErrorView>(SubscribeErrorView::SendEmailError(replies[n]->Err_0)),
            )
            &&& work == 0 && n < replies.len() ==> run.actions == all.subrange(0, 1) && run.result
                == Some(Err::<(), SubscribeErrorView>(persistence_error(0, replies[n]->Err_0)))
            &&& 1 <= work < 4 && n < replies.len() ==> run.actions == all.subrange(done, work + 1)
                + seq![SubscribeActionView::Rollback] && run.result == (if replies.len() > n + 1 {
                Some(Err::<(), SubscribeErrorView>(persistence_error(work, replies[n]->Err_0)))
            } else {
                None
            })
        }),
    decreases 5 - done,
{
    reveal_with_fuel(subscribe_run, 3);
    let all = subscription_actions(
        subscription.subscriber,
        subscription.subscription_token,
        subscription.subscriber_id,
        subscription.base_url,
    );
    let here = subscription.at(stage_after(done));
    let run = subscribe_run(SubscribeStepView::Next(here, all[done]), replies);
    let work = done + n;
    if replies.len() == 0 {
        assert(run.actions =~= all.subrange(done, done + 1));
    } else if n == 0 {
        let rest = replies.drop_first();
        if done == 0 {
            assert(run.actions =~= all.subrange(0, 1));
        } else if done == 4 {
            assert(run.actions =~= all.subrange(4, 5));
        } else {
            assert(here.after(replies[0]) == SubscribeStepView::Next(
                here.at(
                    SubscribeStageView::RollingBack(persistence_error(done, replies[0]->Err_0)),
                ),
                SubscribeActionView::Rollback,
            ));
            assert(run.actions =~= all.subrange(done, done + 1) + seq![
                SubscribeActionView::Rollback,
            ]);
        }
    } else {
        let rest = replies.drop_first();
        assert(replies[0] is Ok);
        if done == 4 {
            assert(run.actions =~= all.subrange(4, 5));
        } else {
            assert(here.at(stage_after(done + 1)) == subscription.at(stage_after(done + 1)));
            assert(here.after(replies[0]) == SubscribeStepView::Next(
                subscription.at(stage_after(done + 1)),
                all[done + 1],
            ));
            assert forall|i: int| 0 <= i < n - 1 implies #[trigger] rest[i] is Ok by {
                assert(replies[i + 1] is Ok);
            }
            if n < replies.len() {
                assert(rest[n - 1] == replies[n]);
            }
            lemma_run_from_stage(subscription, done + 1, rest, n - 1);
            let tail = subscribe_run(
                SubscribeStepView::Next(subscription.at(stage_after(done + 1)), all[done + 1]),
                rest,
            );
            assert(run.actions == seq![all[done]] + tail.actions);
            assert(run.result == tail.result);
            if work >= 5 {
                assert(run.actions =~= all.subrange(done, 5));
            }
            if work < 5 && n == replies.len() {
                assert(run.actions =~= all.subrange(done, work + 1));
            }
            if work == 4 && n < replies.len() {
                assert(run.actions =~= all.subrange(done, 5));
            }
            if 1 <= work < 4 && n < replies.len() {
                assert(run.actions =~= all.subrange(done, work + 1) + seq![
                    SubscribeActionView::Rollback,
                ]);
            }
        }
    }
}

/// Up to the first failure, every reply is a success.
pub proof fn lemma_first_failure(replies: Seq<Result<(), FaultView>>, from: int)
    requires
        0 <= from <= replies.len(),
    ensures
        from <= first_failure(replies, from) <= replies.len(),
        first_failure(replies, from) < replies.len() ==> replies[first_failure(
            replies,
            from,
        )] is Err,
        forall|i: int| from <= i < first_failure(replies, from) ==> #[trigger] replies[i] is Ok,
    decreases replies.len() - from,
{
    if from < replies.len() && !(replies[from] is Err) {
        lemma_first_failure(replies, from + 1);
    }
}

/// The position of the first failure among the replies from `from` on, or
/// the number of replies if none of them is a failure.
pub open spec fn first_failure(replies: Seq<Result<(), FaultView>>, from: int) -> int
    decreases replies.len() - from,
{
    if from < 0 || from >= replies.len() {
        replies.len() as int
    } else if replies[from] is Err {
        from
    } else {
        first_failure(replies, from + 1)
    }
}

/// Whether the confirmation e-mail is among the work asked for.
pub open spec fn sends_email(actions: Seq<SubscribeActionView>) -> bool {
    exists|i: int| 0 <= i < actions.len() && #[trigger] actions[i] is SendEmail
}

/// When nothing fails, a subscription asks for exactly five pieces of work:
/// one transaction, in which one subscriber and one token bound to it are
/// kept, its commit, and then one e-mail, with the subject "Welcome" and the
/// same confirmation link in both bodies. Then it succeeds.
pub proof fn law_subscription_goes_through(
    subscriber: NewSubscriberView,
    subscription_token: Seq<char>,
    subscriber_id: SubscriberId,
    base_url: Seq<char>,
    replies: Seq<Result<(), FaultView>>,
)
    requires
        replies.len() >= 5,
        forall|i: int| 0 <= i < 5 ==> #[trigger] replies[i] is Ok,
    ensures
        ({
            let run = subscribe_run(
                subscription_start(subscriber, subscription_token, subscriber_id, base_url),
                replies,
            );
            let email = confirmation_email_spec(subscriber.email, base_url, subscription_token);
            let link = confirmation_link(base_url, subscription_token);
            &&& run.actions == subscription_actions(
                subscriber,
                subscription_token,
                subscriber_id,
                base_url,
            )
            &&& run.result == Some(Ok::<(), SubscribeErrorView>(()))
            &&& email.to == subscriber.email
            &&& email.subject == "Welcome"@
            &&& contains_text(email.html_content, link)
            &&& contains_text(email.text_content, link)
        }),
{
    let start = SubscriptionView {
        subscriber,
        subscription_token,
        subscriber_id,
        base_url,
        stage: SubscribeStageView::Beginning,
    };
    lemma_first_failure(replies, 0);
    lemma_run_from_stage(start, 0, replies, first_failure(replies, 0));
    let all = subscription_actions(subscriber, subscription_token, subscriber_id, base_url);
    assert(all.subrange(0, 5) =~= all);
    lemma_bodies_carry_the_link(confirmation_link(base_url, subscription_token));
}

/// When the store fails, at whichever piece of work, the e-mail is never
/// asked for, and the subscription ends with a persistence failure. A
/// transaction that was opened is rolled back first.
pub proof fn law_persistence_failure_sends_no_email(
    subscriber: NewSubscriberView,
    subscription_token: Seq<char>,
    subscriber_id: SubscriberId,
    base_url: Seq<char>,
    replies: Seq<Result<(), FaultView>>,
    work: int,
)
    requires
        0 <= work < 4,
        work < replies.len(),
        forall|i: int| 0 <= i < work ==> #[trigger] replies[i] is Ok,
        replies[work] is Err,
    ensures
        ({
            let run = subscribe_run(
                subscription_start(subscriber, subscription_token, subscriber_id, base_url),
                replies,
            );
            &&& !sends_email(run.actions)
            &&& work == 0 || replies.len() > work + 1 ==> run.result == Some(
                Err::<(), SubscribeErrorView>(persistence_error(work, replies[work]->Err_0)),
            )
            &&& persistence_error(work, replies[work]->Err_0).kind()
                == FailureKind::PersistenceFailed
            &&& work >= 1 ==> run.actions.last() == SubscribeActionView::Rollback
        }),
{
    let start = SubscriptionView {
        subscriber,
        subscription_token,
        subscriber_id,
        base_url,
        stage: SubscribeStageView::Beginning,
    };
    lemma_run_from_stage(start, 0, replies, work);
    let all = subscription_actions(subscriber, subscription_token, subscriber_id, base_url);
    let run = subscribe_run(SubscribeStepView::Next(start, all[0]), replies);
    if sends_email(run.actions) {
        let i = choose|i: int| 0 <= i < run.actions.len() && #[trigger] run.actions[i] is SendEmail;
        if work == 0 {
            assert(run.actions[i] == all[i]);
        } else if i <= work {
            assert(run.actions[i] == all[i]);
        }
    }
}

/// When only the e-mail fails, the subscription ends with a dispatch
/// failure, which is no persistence failure, and nothing is rolled back:
/// the subscriber and the token stay committed.
pub proof fn law_email_failure_undoes_nothing(
    subscriber: NewSubscriberView,
    subscription_token: Seq<char>,
    subscriber_id: SubscriberId,
    base_url: Seq<char>,
    replies: Seq<Result<(), FaultView>>,
)
    requires
        replies.len() >= 5,
        forall|i: int| 0 <= i < 4 ==> #[trigger] replies[i] is Ok,
        replies[4] is Err,
    ensures
        ({
            let run = subscribe_run(
                subscription_start(subscriber, subscription_token, subscriber_id, base_url),
                replies,
            );
            &&& run.actions == subscription_actions(
                subscriber,
                subscription_token,
                subscriber_id,
                base_url,
            )
            &&& run.result == Some(
                Err::<(), SubscribeErrorView>(
                    SubscribeErrorView::SendEmailError(replies[4]->Err_0),
                ),
            )
            &&& SubscribeErrorView::SendEmailError(replies[4]->Err_0).kind()
                == FailureKind::DispatchFailed
        }),
{
    let start = SubscriptionView {
        subscriber,
        subscription_token,
        subscriber_id,
        base_url,
        stage: SubscribeStageView::Beginning,
    };
    lemma_run_from_stage(start, 0, replies, 4);
    let all = subscription_actions(subscriber, subscription_token, subscriber_id, base_url);
    assert(all.subrange(0, 5) =~= all);
}

/// Whatever the replies, the e-mail is asked for at one point only: as the
/// fifth piece of work, right after the commit, and after the commit has
/// succeeded.
pub proof fn law_email_waits_for_commit(
    subscriber: NewSubscriberView,
    subscription_token: Seq<char>,
    subscriber_id: SubscriberId,
    base_url: Seq<char>,
    replies: Seq<Result<(), FaultView>>,
    i: int,
)
    requires
        ({
            let run = subscribe_run(
                subscription_start(subscriber, subscription_token, subscriber_id, base_url),
                replies,
            );
            0 <= i < run.actions.len() && run.actions[i] is SendEmail
        }),
    ensures
        ({
            let run = subscribe_run(
                subscription_start(subscriber, subscription_token, subscriber_id, base_url),
                replies,
            );
            &&& i == 4
            &&& run.actions[3] == SubscribeActionView::Commit
            &&& replies.len() >= 4
            &&& forall|j: int| 0 <= j < 4 ==> #[trigger] replies[j] is Ok
        }),
{
    let start = SubscriptionView {
        subscriber,
        subscription_token,
        subscriber_id,
        base_url,
        stage: SubscribeStageView::Beginning,
    };
    let n = first_failure(replies, 0);
    lemma_first_failure(replies, 0);
    lemma_run_from_stage(start, 0, replies, n);
    let all = subscription_actions(subscriber, subscription_token, subscriber_id, base_url);
    let run = subscribe_run(SubscribeStepView::Next(start, all[0]), replies);
    if n < 4 {
        if n == replies.len() || n == 0 || i <= n {
            assert(run.actions[i] == all[i]);
        }
    } else {
        assert(run.actions[i] == all[i]);
    }
}

/// The outside work that a subscription waits for.
enum SubscribeStage {
    Beginning,
    InsertingSubscriber,
    StoringToken,
    Committing,
    RollingBack(SubscribeError),
    Sending,
}

impl View for SubscribeStage {
    type V = SubscribeStageView;

    closed spec fn view(&self) -> SubscribeStageView {
        match self {
            SubscribeStage::Beginning => SubscribeStageView::Beginning,
            SubscribeStage::InsertingSubscriber => SubscribeStageView::InsertingSubscriber,
            SubscribeStage::StoringToken => SubscribeStageView::StoringToken,
            SubscribeStage::Committing => SubscribeStageView::Committing,
            SubscribeStage::RollingBack(error) => SubscribeStageView::RollingBack(error@),
            SubscribeStage::Sending => SubscribeStageView::Sending,
        }
    }
}

/// A subscription under way: it waits for the outcome of the work that its
/// last step asked for.
pub struct Subscription {
    subscriber: NewSubscriber,
    subscription_token: String,
    subscriber_id: SubscriberId,
    base_url: String,
    stage: SubscribeStage,
}

impl View for Subscription {
    type V = SubscriptionView;

    closed spec fn view(&self) -> SubscriptionView {
        SubscriptionView {
            subscriber: self.subscriber@,
            subscription_token: self.subscription_token@,
            subscriber_id: self.subscriber_id,
            base_url: self.base_url@,
            stage: self.stage@,
        }
    }
}

/// The outside work that a subscription asks for.
#[derive(Debug)]
pub enum SubscribeAction {
    /// Open a transaction.
    BeginTransaction,
    /// In the transaction, keep a subscriber that is pending confirmation.
    InsertSubscriber { subscriber_id: SubscriberId, email: String, name: String },
    /// In the transaction, keep a token and bind it to the subscriber.
    StoreToken { subscription_token: String, subscriber_id: SubscriberId },
    /// Commit the transaction.
    Commit,
    /// Roll the transaction back.
    Rollback,
    /// Send the confirmation e-mail.
    SendEmail(OutgoingEmail),
}

impl View for SubscribeAction {
    type V = SubscribeActionView;

    open spec fn view(&self) -> SubscribeActionView {
        match self {
            SubscribeAction::BeginTransaction => SubscribeActionView::BeginTransaction,
            SubscribeAction::InsertSubscriber {
                subscriber_id,
                email,
                name,
            } => SubscribeActionView::InsertSubscriber {
                subscriber_id: *subscriber_id,
                email: email@,
                name: name@,
            },
            SubscribeAction::StoreToken {
                subscription_token,
                subscriber_id,
            } => SubscribeActionView::StoreToken {
                subscription_token: subscription_token@,
                subscriber_id: *subscriber_id,
            },
            SubscribeAction::Commit => SubscribeActionView::Commit,
            SubscribeAction::Rollback => SubscribeActionView::Rollback,
            SubscribeAction::SendEmail(email) => SubscribeActionView::SendEmail(email@),
        }
    }
}

/// What happens next in a subscription.
pub enum SubscribeStep {
    /// Do the work, then report its outcome to the subscription.
    Next(Subscription, SubscribeAction),
    /// The subscription is over.
    Done(Result<(), SubscribeError>),
}

impl View for SubscribeStep {
    type V = SubscribeStepView;

    open spec fn view(&self) -> SubscribeStepView {
        match self {
            SubscribeStep::Next(subscription, action) => SubscribeStepView::Next(
                subscription@,
                action@,
            ),
            SubscribeStep::Done(result) => SubscribeStepView::Done(
                match result {
                    Ok(()) => Ok(()),
                    Err(error) => Err(error@),
                },
            ),
        }
    }
}

impl Subscription {
    /// Starts a subscription for a validated subscriber, with the token and
    /// the identifier that it is to be kept under.
    pub fn start(
        new_subscriber: NewSubscriber,
        subscription_token: String,
        subscriber_id: SubscriberId,
        base_url: String,
    ) -> (step: SubscribeStep)
        ensures
            step@ == subscription_start(
                new_subscriber@,
                subscription_token@,
                subscriber_id,
                base_url@,
            ),
    {
        SubscribeStep::Next(
            Subscription {
                subscriber: new_subscriber,
                subscription_token,
                subscriber_id,
                base_url,
                stage: SubscribeStage::Beginning,
            },
            SubscribeAction::BeginTransaction,
        )
    }

    /// Takes the outcome of the work that was asked for and says what
    /// happens next.
    pub fn step(self, reply: Result<(), Fault>) -> (step: SubscribeStep)
        ensures
            step@ == self@.after(outcome_view(reply)),
    {
        let Subscription { subscriber, subscription_token, subscriber_id, base_url, stage } = self;
        match stage {
            SubscribeStage::Beginning => match reply {
                Ok(()) => {
                    let email = String::from_str(subscriber.email.as_ref());
                    let name = String::from_str(subscriber.name.as_ref());
                    SubscribeStep::Next(
                        Subscription {
                            subscriber,
                            subscription_token,
                            subscriber_id,
                            base_url,
                            stage: SubscribeStage::InsertingSubscriber,
                        },
                        SubscribeAction::InsertSubscriber { subscriber_id, email, name },
                    )
                },
                Err(fault) => SubscribeStep::Done(Err(SubscribeError::PoolError(fault))),
            },
            SubscribeStage::InsertingSubscriber => match reply {
                Ok(()) => {
                    let token = subscription_token.clone();
                    SubscribeStep::Next(
                        Subscription {
                            subscriber,
                            subscription_token,
                            subscriber_id,
                            base_url,
                            stage: SubscribeStage::StoringToken,
                        },
                        SubscribeAction::StoreToken { subscription_token: token, subscriber_id },
                    )
                },
                Err(fault) => SubscribeStep::Next(
                    Subscription {
                        subscriber,
                        subscription_token,
                        subscriber_id,
                        base_url,
                        stage: SubscribeStage::RollingBack(
                            SubscribeError::InsertSubscriberError(fault),
                        ),
                    },
                    SubscribeAction::Rollback,
                ),
            },
            SubscribeStage::StoringToken => match reply {
                Ok(()) => SubscribeStep::Next(
                    Subscription {
                        subscriber,
                        subscription_token,
                        subscriber_id,
                        base_url,
                        stage: SubscribeStage::Committing,
                    },
                    SubscribeAction::Commit,
                ),
                Err(fault) => SubscribeStep::Next(
                    Subscription {
                        subscriber,
                        subscription_token,
                        subscriber_id,
                        base_url,
                        stage: SubscribeStage::RollingBack(
                            SubscribeError::StoreTokenError(StoreTokenError(fault)),
                        ),
                    },
                    SubscribeAction::Rollback,
                ),
            },
            SubscribeStage::Committing => match reply {
                Ok(()) => {
                    let email = confirmation_email(
                        subscriber.email.clone(),
                        base_url.as_str(),
                        subscription_token.as_str(),
                    );
                    SubscribeStep::Next(
                        Subscription {
                            subscriber,
                            subscription_token,
                            subscriber_id,
                            base_url,
                            stage: SubscribeStage::Sending,
                        },
                        SubscribeAction::SendEmail(email),
                    )
                },
                Err(fault) => SubscribeStep::Next(
                    Subscription {
                        subscriber,
                        subscription_token,
                        subscriber_id,
                        base_url,
                        stage: SubscribeStage::RollingBack(
                            SubscribeError::TransactionCommitError(fault),
                        ),
                    },
                    SubscribeAction::Rollback,
                ),
            },
            SubscribeStage::RollingBack(error) => SubscribeStep::Done(Err(error)),
            SubscribeStage::Sending => match reply {
                Ok(()) => SubscribeStep::Done(Ok(())),
                Err(fault) => SubscribeStep::Done(
                    Err(SubscribeError::SendEmailError(EmailClientError::SendEmailError(fault))),
                ),
            },
        }
    }
}

/// Takes a submitted form. One that is not valid ends the subscription at
/// once, with the reason. For a valid one, a fresh token and a fresh
/// identifier are made, and the first step asks for a transaction.
pub fn subscribe(form: FormData, base_url: &ApplicationBaseUrl) -> (step: SubscribeStep)
    ensures
        new_subscriber_spec(form@) matches Err(reason) ==> step@ == SubscribeStepView::Done(
            Err(SubscribeErrorView::ValidationError(reason)),
        ),
        new_subscriber_spec(form@) matches Ok(subscriber) ==> {
            &&& step@ matches SubscribeStepView::Next(subscription, _)
            &&& is_token(subscription.subscription_token)
            &&& step@ == subscription_start(
                subscriber,
                subscription.subscription_token,
                subscription.subscriber_id,
                base_url@,
            )
        },
{
    match NewSubscriber::try_from(form) {
        Ok(new_subscriber) => {
            let subscription_token = generate_subscription_token();
            let subscriber_id = new_subscriber_id();
            Subscription::start(
                new_subscriber,
                subscription_token,
                subscriber_id,
                base_url.0.clone(),
            )
        },
        Err(reason) => SubscribeStep::Done(Err(SubscribeError::ValidationError(reason))),
    }
}

} // verus!
