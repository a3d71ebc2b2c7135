//! Confirming a subscription: the token from the confirmation link is
//! resolved to a subscriber, and the subscriber is marked as confirmed.
//!
//! [`confirm`] checks the token and starts a [`TokenLookup`], which waits for
//! the subscriber that the token belongs to; a [`Confirmation`] then waits
//! for the store to mark that subscriber.

use crate::error::{outcome_view, FailureKind, Fault, FaultView};
use crate::store::SubscriberId;
use vstd::prelude::*;

verus! {

/// What the confirmation link carries.
#[derive(Debug)]
pub struct Parameters {
    pub subscription_token: String,
}

impl View for Parameters {
    type V = Seq<char>;

    open spec fn view(&self) -> Seq<char> {
        self.subscription_token@
    }
}

/// Why a subscription was not confirmed.
#[derive(Debug)]
pub enum ConfirmError {
    /// No token was given.
    ValidationFailed,
    /// The token belongs to no subscriber.
    Unauthorized,
    /// The store failed.
    PersistenceFailed(Fault),
}

/// A [`ConfirmError`] as plain text.
pub enum ConfirmErrorView {
    ValidationFailed,
    Unauthorized,
    PersistenceFailed(FaultView),
}

impl View for ConfirmError {
    type V = ConfirmErrorView;

    open spec fn view(&self) -> ConfirmErrorView {
        match self {
            ConfirmError::ValidationFailed => ConfirmErrorView::ValidationFailed,
            ConfirmError::Unauthorized => ConfirmErrorView::Unauthorized,
            ConfirmError::PersistenceFailed(fault) => ConfirmErrorView::PersistenceFailed(fault@),
        }
    }
}

impl ConfirmErrorView {
    /// The kind of failure that the error stands for.
    pub open spec fn kind(self) -> FailureKind {
        match self {
            ConfirmErrorView::ValidationFailed => FailureKind::ValidationFailed,
            ConfirmErrorView::Unauthorized => FailureKind::Unauthorized,
            ConfirmErrorView::PersistenceFailed(_) => FailureKind::PersistenceFailed,
        }
    }
}

impl ConfirmError {
    /// The kind of failure that the error stands for.
    pub fn kind(&self) -> (kind: FailureKind)
        ensures
            kind == self@.kind(),
    {
        match self {
            ConfirmError::ValidationFailed => FailureKind::ValidationFailed,
            ConfirmError::Unauthorized => FailureKind::Unauthorized,
            ConfirmError::PersistenceFailed(_) => FailureKind::PersistenceFailed,
        }
    }

    /// The HTTP status of the error: a bad request without a token, not
    /// authorized for an unknown one, a server error when the store failed.
    pub fn status_code(&self) -> (code: u16)
        ensures
            code == self@.kind().status_code(),
            code == (match self@ {
                ConfirmErrorView::ValidationFailed => 400u16,
                ConfirmErrorView::Unauthorized => 401u16,
                ConfirmErrorView::PersistenceFailed(_) => 500u16,
            }),
    {
        self.kind().status_code()
    }
}

/// The verdict on a token as it comes in: an empty one is turned down at
/// once, any other is looked up.
pub open spec fn confirm_spec(subscription_token: Seq<char>) -> Result<Seq<char>, ConfirmErrorView> {
    if subscription_token.len() == 0 {
        Err(ConfirmErrorView::ValidationFailed)
    } else {
        Ok(subscription_token)
    }
}

/// The verdict on what the store found for the token: a subscriber is to be
/// confirmed; no subscriber means that the token is not authorized.
pub open spec fn found_spec(reply: Result<Option<SubscriberId>, FaultView>) -> Result<
    SubscriberId,
    ConfirmErrorView,
> {
    match reply {
        Ok(Some(subscriber_id)) => Ok(subscriber_id),
        Ok(None) => Err(ConfirmErrorView::Unauthorized),
        Err(fault) => Err(ConfirmErrorView::PersistenceFailed(fault)),
    }
}

/// How the confirmation ends, given how the store fared.
pub open spec fn confirmed_spec(reply: Result<(), FaultView>) -> Result<(), ConfirmErrorView> {
    match reply {
        Ok(()) => Ok(()),
        Err(fault) => Err(ConfirmErrorView::PersistenceFailed(fault)),
    }
}

/// What the store found for a token, as plain text.
pub open spec fn lookup_view(reply: Result<Option<SubscriberId>, Fault>) -> Result<
    Option<SubscriberId>,
    FaultView,
> {
    match reply {
        Ok(found) => Ok(found),
        Err(fault) => Err(fault@),
    }
}

/// A confirmation that waits for the subscriber behind its token.
#[derive(Debug)]
pub struct TokenLookup {
    subscription_token: String,
}

impl View for TokenLookup {
    type V = Seq<char>;

    closed spec fn view(&self) -> Seq<char> {
        self.subscription_token@
    }
}

/// A confirmation that waits for the store to mark its subscriber.
#[derive(Debug)]
pub struct Confirmation {
    subscriber_id: SubscriberId,
}

impl View for Confirmation {
    type V = SubscriberId;

    closed spec fn view(&self) -> SubscriberId {
        self.subscriber_id
    }
}

/// Takes the token of a confirmation link. An empty one ends the
/// confirmation at once; for any other, the caller now looks up the
/// subscriber that the token belongs to and reports with
/// [`TokenLookup::found`].
pub fn confirm(parameters: Parameters) -> (r: Result<TokenLookup, ConfirmError>)
    ensures
        r is Ok <==> parameters@.len() > 0,
        r matches Ok(lookup) ==> Ok::<Seq<char>, ConfirmErrorView>(lookup@) == confirm_spec(
            parameters@,
        ),
        r matches Err(error) ==> Err::<Seq<char>, ConfirmErrorView>(error@) == confirm_spec(
            parameters@,
        ),
{
    if parameters.subscription_token.as_str().is_empty() {
        Err(ConfirmError::ValidationFailed)
    } else {
        Ok(TokenLookup { subscription_token: parameters.subscription_token })
    }
}

impl TokenLookup {
    /// The token that is to be looked up.
    pub fn subscription_token(&self) -> (token: &str)
        ensures
            token@ == self@,
    {
        self.subscription_token.as_str()
    }

    /// Takes what the store found for the token. With a subscriber, the
    /// caller now has the store mark it as confirmed and reports with
    /// [`Confirmation::confirmed`].
    pub fn found(self, reply: Result<Option<SubscriberId>, Fault>) -> (r: Result<
        Confirmation,
        ConfirmError,
    >)
        ensures
            r matches Ok(confirmation) ==> Ok::<SubscriberId, ConfirmErrorView>(confirmation@)
                == found_spec(lookup_view(reply)),
            r matches Err(error) ==> Err::<SubscriberId, ConfirmErrorView>(error@) == found_spec(
                lookup_view(reply),
            ),
    {
        match reply {
            Ok(Some(subscriber_id)) => Ok(Confirmation { subscriber_id }),
            Ok(None) => Err(ConfirmError::Unauthorized),
            Err(fault) => Err(ConfirmError::PersistenceFailed(fault)),
        }
    }
}

impl Confirmation {
    /// The subscriber that is to be marked as confirmed.
    pub fn subscriber_id(&self) -> (subscriber_id: SubscriberId)
        ensures
            subscriber_id == self@,
    {
        self.subscriber_id
    }

    /// Takes the store's answer and ends the confirmation.
    pub fn confirmed(self, reply: Result<(), Fault>) -> (r: Result<(), ConfirmError>)
        ensures
            r is Ok <==> reply is Ok,
            r matches Err(error) ==> Err::<(), ConfirmErrorView>(error@) == confirmed_spec(
                outcome_view(reply),
            ),
    {
        match reply {
            Ok(()) => Ok(()),
            Err(fault) => Err(ConfirmError::PersistenceFailed(fault)),
        }
    }
}

} // verus!
