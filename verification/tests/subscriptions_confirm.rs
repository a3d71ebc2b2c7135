use std::sync::Mutex;
use zero2prod::domain::Email;
use zero2prod::email::email_client::{EmailClient, EmailService, SendEmailRequest};
use zero2prod::error::{FailureKind, Fault};
use zero2prod::routes::subscriptions::FormData;
use zero2prod::routes::subscriptions_confirm::{confirm, ConfirmError, Parameters};
use zero2prod::service::{run_confirmation, run_subscription};
use zero2prod::startup::ApplicationBaseUrl;
use zero2prod::store::{SubscriberId, SubscriberStore, SubscriptionStatus};

/// A transport that keeps the plain-text bodies it is asked to send.
struct Inbox {
    bodies: Mutex<Vec<String>>,
}

impl EmailClient for Inbox {
    fn send_email(&self, _: &Email, request: SendEmailRequest<'_>) -> Result<(), Fault> {
        self.bodies.lock().unwrap().push(request.text_content.to_string());
        Ok(())
    }
}

/// Subscribes Ursula on an empty store and gives back the store and the
/// token of the confirmation link that she was sent.
fn store_with_a_pending_subscriber() -> (SubscriberStore, String) {
    let mut store = SubscriberStore::new();
    let service = EmailService::new(Email::parse("newsletter@example.com".to_string()).unwrap());
    let inbox = Inbox { bodies: Mutex::new(Vec::new()) };
    let form = FormData { email: "ursula_le_guin@gmail.com".to_string(), name: "le guin".to_string() };
    let base_url = ApplicationBaseUrl("http://127.0.0.1/".to_string());
    assert!(run_subscription(&mut store, &service, &inbox, &base_url, form, 0).is_ok());
    let bodies = inbox.bodies.lock().unwrap();
    assert_eq!(bodies.len(), 1);
    let marker = "subscription_token=";
    let start = bodies[0].find(marker).unwrap() + marker.len();
    let token: String = bodies[0][start..].chars().take_while(|c| c.is_ascii_alphanumeric()).collect();
    (store, token)
}

fn parameters(token: &str) -> Parameters {
    Parameters { subscription_token: token.to_string() }
}

fn status(result: &Result<(), ConfirmError>) -> u16 {
    match result {
        Ok(()) => 200,
        Err(error) => error.status_code(),
    }
}

#[test]
fn confirmations_without_token_are_rejected_with_a_400() {
    let (mut store, _) = store_with_a_pending_subscriber();

    let response = run_confirmation(&mut store, parameters(""));

    assert_eq!(status(&response), 400);
}

#[test]
fn the_link_by_subscribe_returns_a_200_if_called() {
    let (mut store, token) = store_with_a_pending_subscriber();

    let response = run_confirmation(&mut store, parameters(&token));

    assert_eq!(status(&response), 200);
}

#[test]
fn clicking_on_the_confirmation_link_confirms_a_subscriber() {
    let (mut store, token) = store_with_a_pending_subscriber();

    let _ = run_confirmation(&mut store, parameters(&token));

    let saved = &store.subscribers()[0];
    assert_eq!(saved.email, "ursula_le_guin@gmail.com");
    assert_eq!(saved.name, "le guin");
    assert_eq!(saved.status.as_str(), "confirmed");
}

#[test]
fn confirming_twice_with_the_same_token_succeeds_twice() {
    let (mut store, token) = store_with_a_pending_subscriber();
    assert_eq!(store.subscribers()[0].status, SubscriptionStatus::PendingConfirmation);

    assert!(run_confirmation(&mut store, parameters(&token)).is_ok());
    assert_eq!(store.subscribers()[0].status, SubscriptionStatus::Confirmed);

    assert!(run_confirmation(&mut store, parameters(&token)).is_ok());
    assert_eq!(store.subscribers()[0].status, SubscriptionStatus::Confirmed);
    assert_eq!(store.subscribers().len(), 1);
    assert_eq!(store.tokens().len(), 1);
}

#[test]
fn an_unknown_token_is_not_authorized_and_changes_nothing() {
    let (mut store, token) = store_with_a_pending_subscriber();
    let unknown = format!("{}x", token);

    let response = run_confirmation(&mut store, parameters(&unknown));

    assert!(matches!(response, Err(ConfirmError::Unauthorized)));
    assert_eq!(status(&response), 401);
    assert_eq!(store.subscribers().len(), 1);
    assert_eq!(store.subscribers()[0].status, SubscriptionStatus::PendingConfirmation);
    assert_eq!(store.tokens().len(), 1);
}

#[test]
fn an_empty_token_is_a_validation_failure_and_changes_nothing() {
    let (mut store, _) = store_with_a_pending_subscriber();

    let response = run_confirmation(&mut store, parameters(""));

    assert!(matches!(response, Err(ConfirmError::ValidationFailed)));
    assert_eq!(store.subscribers()[0].status, SubscriptionStatus::PendingConfirmation);
}

#[test]
fn a_token_is_looked_up_as_it_was_given() {
    let lookup = confirm(parameters("abc")).unwrap();
    assert_eq!(lookup.subscription_token(), "abc");
    assert!(matches!(confirm(parameters("")), Err(ConfirmError::ValidationFailed)));
}

#[test]
fn what_the_store_finds_decides_how_the_confirmation_goes_on() {
    let confirmation = confirm(parameters("abc")).unwrap().found(Ok(Some(SubscriberId(7)))).unwrap();
    assert_eq!(confirmation.subscriber_id(), SubscriberId(7));
    assert!(confirmation.confirmed(Ok(())).is_ok());

    let nobody = confirm(parameters("abc")).unwrap().found(Ok(None));
    assert!(matches!(nobody, Err(ConfirmError::Unauthorized)));

    let failed = confirm(parameters("abc")).unwrap().found(Err(Fault::new("connection lost".to_string())));
    match failed {
        Err(ConfirmError::PersistenceFailed(fault)) => assert_eq!(fault.message, "connection lost"),
        _ => panic!("the store failed, and so must the confirmation"),
    }
}

#[test]
fn a_store_that_fails_to_confirm_is_a_persistence_failure() {
    let confirmation = confirm(parameters("abc")).unwrap().found(Ok(Some(SubscriberId(7)))).unwrap();
    let result = confirmation.confirmed(Err(Fault::new("connection lost".to_string())));
    match &result {
        Err(error) => {
            assert!(matches!(error, ConfirmError::PersistenceFailed(_)));
            assert_eq!(error.kind(), FailureKind::PersistenceFailed);
            assert_eq!(error.status_code(), 500);
        }
        Ok(()) => panic!("the store failed, and so must the confirmation"),
    }
}

#[test]
fn each_confirmation_error_has_its_kind_and_status() {
    assert_eq!(ConfirmError::ValidationFailed.kind(), FailureKind::ValidationFailed);
    assert_eq!(ConfirmError::ValidationFailed.status_code(), 400);
    assert_eq!(ConfirmError::Unauthorized.kind(), FailureKind::Unauthorized);
    assert_eq!(ConfirmError::Unauthorized.status_code(), 401);
}
