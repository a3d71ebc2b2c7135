use std::sync::Mutex;
use zero2prod::domain::{Email, NewSubscriber, SubscriberEmail};
use zero2prod::email::email_client::{EmailClient, EmailService, SendEmailRequest};
use zero2prod::error::{FailureKind, Fault};
use zero2prod::routes::subscriptions::{
    confirmation_email, generate_subscription_token, send_confirmation_email, subscribe, FormData,
    StoreTokenError, SubscribeAction, SubscribeError, SubscribeStep, Subscription,
};
use zero2prod::service::run_subscription;
use zero2prod::startup::ApplicationBaseUrl;
use zero2prod::store::{SubscriberId, SubscriberStore, SubscriptionStatus};

struct SentEmail {
    from: String,
    to: String,
    subject: String,
    html: String,
    text: String,
}

/// A transport that keeps what it is asked to send, and fails from a given
/// request on (counted from 1), if told so.
struct Outbox {
    sent: Mutex<Vec<SentEmail>>,
    fail_from: Option<usize>,
}

impl Outbox {
    fn new() -> Outbox {
        Outbox { sent: Mutex::new(Vec::new()), fail_from: None }
    }

    fn failing() -> Outbox {
        Outbox { sent: Mutex::new(Vec::new()), fail_from: Some(1) }
    }

    fn requests(&self) -> usize {
        self.sent.lock().unwrap().len()
    }
}

impl EmailClient for Outbox {
    fn send_email(&self, sender_email: &Email, request: SendEmailRequest<'_>) -> Result<(), Fault> {
        let mut sent = self.sent.lock().unwrap();
        sent.push(SentEmail {
            from: sender_email.as_ref().to_string(),
            to: request.to.as_ref().to_string(),
            subject: request.subject.to_string(),
            html: request.html_content.to_string(),
            text: request.text_content.to_string(),
        });
        match self.fail_from {
            Some(n) if sent.len() >= n => Err(Fault::new("the transport is down".to_string())),
            _ => Ok(()),
        }
    }
}

struct TestApp {
    store: SubscriberStore,
    email_service: EmailService,
    base_url: ApplicationBaseUrl,
}

fn spawn_app() -> TestApp {
    TestApp {
        store: SubscriberStore::new(),
        email_service: EmailService::new(Email::parse("newsletter@example.com".to_string()).unwrap()),
        base_url: ApplicationBaseUrl("http://127.0.0.1/".to_string()),
    }
}

fn form(name: &str, email: &str) -> FormData {
    FormData { email: email.to_string(), name: name.to_string() }
}

fn post_subscriptions(app: &mut TestApp, outbox: &Outbox, form: FormData) -> Result<(), SubscribeError> {
    run_subscription(&mut app.store, &app.email_service, outbox, &app.base_url, form, 1_700_000_000)
}

fn status(result: &Result<(), SubscribeError>) -> u16 {
    match result {
        Ok(()) => 200,
        Err(error) => error.status_code(),
    }
}

/// The one link in `text`: it starts at "http" and ends before a quote or a blank.
fn link_in(text: &str) -> String {
    let start = text.find("http").unwrap();
    let rest = &text[start..];
    let end = rest.find(|c: char| c == '"' || c == ' ').unwrap_or(rest.len());
    assert!(!rest[end..].contains("http"));
    rest[..end].to_string()
}

fn new_subscriber(name: &str, email: &str) -> NewSubscriber {
    NewSubscriber::try_from(form(name, email)).unwrap()
}

fn ok() -> Result<(), Fault> {
    Ok(())
}

fn fault(message: &str) -> Result<(), Fault> {
    Err(Fault::new(message.to_string()))
}

/// Carries a subscription on with `replies`; gives the work that was asked
/// for, as text, and the result if the subscription came to an end.
fn drive(mut step: SubscribeStep, replies: Vec<Result<(), Fault>>) -> (Vec<String>, Option<Result<(), SubscribeError>>) {
    let mut asked = Vec::new();
    let mut replies = replies.into_iter();
    loop {
        match step {
            SubscribeStep::Done(result) => return (asked, Some(result)),
            SubscribeStep::Next(subscription, action) => {
                asked.push(match &action {
                    SubscribeAction::BeginTransaction => "begin".to_string(),
                    SubscribeAction::InsertSubscriber { subscriber_id, email, name } => {
                        format!("insert {} {} {}", subscriber_id.0, email, name)
                    }
                    SubscribeAction::StoreToken { subscription_token, subscriber_id } => {
                        format!("token {} {}", subscription_token, subscriber_id.0)
                    }
                    SubscribeAction::Commit => "commit".to_string(),
                    SubscribeAction::Rollback => "rollback".to_string(),
                    SubscribeAction::SendEmail(email) => format!("send {}", email.to.as_ref()),
                });
                match replies.next() {
                    Some(reply) => step = subscription.step(reply),
                    None => return (asked, None),
                }
            }
        }
    }
}

fn started() -> SubscribeStep {
    Subscription::start(
        new_subscriber("le guin", "ursula_le_guin@gmail.com"),
        "0123456789abcdefghijABCDE".to_string(),
        SubscriberId(42),
        "http://127.0.0.1/".to_string(),
    )
}

#[test]
fn subscribe_returns_a_200_for_valid_form_data() {
    let mut app = spawn_app();
    let outbox = Outbox::new();

    let response = post_subscriptions(&mut app, &outbox, form("le guin", "ursula_le_guin@gmail.com"));

    assert_eq!(200, status(&response));
}

#[test]
fn subscribe_persists_the_new_subscriber() {
    let email = "ursula_le_guin@gmail.com";
    let name = "le guin";
    let mut app = spawn_app();
    let outbox = Outbox::new();

    let response = post_subscriptions(&mut app, &outbox, form(name, email));

    assert_eq!(200, status(&response));
    assert_eq!(app.store.subscribers().len(), 1);
    let saved = &app.store.subscribers()[0];
    assert_eq!(saved.email, email);
    assert_eq!(saved.name, name);
    assert_eq!(saved.status.as_str(), "pending_confirmation");
}

#[test]
fn subscribe_sends_a_confirmation_email_with_a_link() {
    let email = "ursula_le_guin@gmail.com";
    let mut app = spawn_app();
    let outbox = Outbox::new();

    let response = post_subscriptions(&mut app, &outbox, form("le guin", email));

    assert_eq!(200, status(&response));
    let sent = outbox.sent.lock().unwrap();
    assert_eq!(sent.len(), 1);
    let request = &sent[0];
    assert_eq!(request.to, email);
    assert!(request.subject.contains("Welcome"));
    assert!(request.text.contains("Welcome to our newsletter!"));
    assert_eq!(link_in(&request.text), link_in(&request.html));
}

#[test]
fn subscribe_returns_400_when_fields_are_present_but_invalid() {
    let test_cases = vec![
        ("", "ursula_le_guin@gmail.com", "empty name"),
        ("Ursula", "", "empty email"),
        ("Ursula", "definitely-not-an-email", "invalid email"),
    ];

    for (name, email, description) in test_cases {
        let mut app = spawn_app();
        let outbox = Outbox::new();
        let response = post_subscriptions(&mut app, &outbox, form(name, email));

        assert_eq!(
            400,
            status(&response),
            "The API did not return a  400 Bad Request when the payload was {}.",
            description
        );
        assert!(app.store.subscribers().is_empty());
        assert!(app.store.tokens().is_empty());
        assert_eq!(outbox.requests(), 0);
    }
}

#[test]
fn subscribe_fails_if_there_is_a_fatal_database_error() {
    let mut app = spawn_app();
    let outbox = Outbox::new();
    // Somebody else holds the one transaction of the store: no other can be opened.
    assert_eq!(app.store.begin(), Ok(()));

    let response = post_subscriptions(&mut app, &outbox, form("le guin", "ursula_le_guin@gmail.com"));

    assert_eq!(500, status(&response));
    assert_eq!(outbox.requests(), 0);
    assert!(app.store.subscribers().is_empty());
}

#[test]
fn a_subscription_on_an_empty_store_keeps_one_subscriber_and_one_token_and_sends_one_email() {
    let mut app = spawn_app();
    let outbox = Outbox::new();

    let response = post_subscriptions(&mut app, &outbox, form("le guin", "ursula_le_guin@gmail.com"));

    assert!(response.is_ok());
    assert_eq!(app.store.subscribers().len(), 1);
    assert_eq!(app.store.tokens().len(), 1);
    let subscriber = &app.store.subscribers()[0];
    let token = &app.store.tokens()[0];
    assert_eq!(subscriber.status, SubscriptionStatus::PendingConfirmation);
    assert_eq!(subscriber.subscribed_at, 1_700_000_000);
    assert_eq!(token.subscriber_id, subscriber.id);
    assert_eq!(token.subscription_token.chars().count(), 25);
    let sent = outbox.sent.lock().unwrap();
    assert_eq!(sent.len(), 1);
    assert_eq!(sent[0].from, "newsletter@example.com");
    assert_eq!(sent[0].subject, "Welcome");
    let link = format!(
        "http://127.0.0.1/subscriptions/confirm?subscription_token={}",
        token.subscription_token
    );
    assert!(sent[0].html.contains(&link));
    assert!(sent[0].text.contains(&link));
}

#[test]
fn the_same_email_submitted_twice_gives_two_subscribers() {
    let mut app = spawn_app();
    let outbox = Outbox::new();

    let first = post_subscriptions(&mut app, &outbox, form("le guin", "ursula_le_guin@gmail.com"));
    let second = post_subscriptions(&mut app, &outbox, form("le guin", "ursula_le_guin@gmail.com"));

    assert!(first.is_ok());
    assert!(second.is_ok());
    assert_eq!(app.store.subscribers().len(), 2);
    assert_eq!(app.store.subscribers()[0].email, "ursula_le_guin@gmail.com");
    assert_eq!(app.store.subscribers()[1].email, "ursula_le_guin@gmail.com");
    assert_ne!(app.store.subscribers()[0].id, app.store.subscribers()[1].id);
    assert_eq!(app.store.tokens().len(), 2);
    assert_ne!(app.store.tokens()[0].subscription_token, app.store.tokens()[1].subscription_token);
    assert_eq!(outbox.requests(), 2);
}

#[test]
fn a_failed_email_leaves_the_subscriber_and_the_token_committed() {
    let mut app = spawn_app();
    let outbox = Outbox::failing();

    let response = post_subscriptions(&mut app, &outbox, form("le guin", "ursula_le_guin@gmail.com"));

    match &response {
        Err(error) => {
            assert!(matches!(error, SubscribeError::SendEmailError(_)));
            assert_eq!(error.kind(), FailureKind::DispatchFailed);
            assert_eq!(error.status_code(), 500);
            assert_eq!(error.message(), "Failed to send a confirmation email.");
            assert_eq!(error.source(), Some("the transport is down".to_string()));
        }
        Ok(()) => panic!("the transport failed, and so must the subscription"),
    }
    assert_eq!(app.store.subscribers().len(), 1);
    assert_eq!(app.store.tokens().len(), 1);
    assert_eq!(outbox.requests(), 1);
}

#[test]
fn an_invalid_form_ends_the_subscription_before_it_starts() {
    let step = subscribe(form("", "ursula_le_guin@gmail.com"), &ApplicationBaseUrl("http://127.0.0.1/".to_string()));
    match step {
        SubscribeStep::Done(Err(SubscribeError::ValidationError(reason))) => {
            assert_eq!(reason, " is not a valid subscriber name.");
        }
        _ => panic!("an empty name is not valid"),
    }
}

#[test]
fn a_valid_form_starts_with_a_transaction_and_a_fresh_token() {
    let step = subscribe(form("le guin", "ursula_le_guin@gmail.com"), &ApplicationBaseUrl("http://127.0.0.1/".to_string()));
    let (asked, result) = drive(step, vec![ok(), ok()]);
    assert!(result.is_none());
    assert_eq!(asked.len(), 3);
    assert_eq!(asked[0], "begin");
    assert!(asked[1].starts_with("insert "));
    assert!(asked[1].ends_with(" ursula_le_guin@gmail.com le guin"));
    let token = asked[2].split(' ').nth(1).unwrap();
    assert_eq!(token.len(), 25);
    assert!(token.chars().all(|c| c.is_ascii_alphanumeric()));
}

#[test]
fn a_subscription_asks_for_its_five_pieces_of_work_in_order() {
    let (asked, result) = drive(started(), vec![ok(), ok(), ok(), ok(), ok()]);
    assert_eq!(
        asked,
        vec![
            "begin",
            "insert 42 ursula_le_guin@gmail.com le guin",
            "token 0123456789abcdefghijABCDE 42",
            "commit",
            "send ursula_le_guin@gmail.com",
        ]
    );
    assert!(matches!(result, Some(Ok(()))));
}

#[test]
fn a_subscription_waits_when_the_replies_run_out() {
    let (asked, result) = drive(started(), vec![]);
    assert_eq!(asked, vec!["begin"]);
    assert!(result.is_none());
    let (asked, result) = drive(started(), vec![ok(), ok(), ok()]);
    assert_eq!(asked.len(), 4);
    assert_eq!(asked[3], "commit");
    assert!(result.is_none());
}

#[test]
fn no_transaction_means_no_rollback_and_no_email() {
    let (asked, result) = drive(started(), vec![fault("pool timed out"), ok(), ok()]);
    assert_eq!(asked, vec!["begin"]);
    match result {
        Some(Err(error)) => {
            assert!(matches!(error, SubscribeError::PoolError(_)));
            assert_eq!(error.kind(), FailureKind::PersistenceFailed);
            assert_eq!(error.status_code(), 500);
            assert_eq!(error.message(), "Failed to acquire a Postgres connection from the pool.");
            assert_eq!(error.causes(), vec!["pool timed out".to_string()]);
        }
        _ => panic!("the store failed, and so must the subscription"),
    }
}

#[test]
fn a_failed_insert_is_rolled_back_and_no_email_is_sent() {
    let (asked, result) = drive(started(), vec![ok(), fault("column email does not exist"), ok(), ok()]);
    assert_eq!(asked, vec!["begin", "insert 42 ursula_le_guin@gmail.com le guin", "rollback"]);
    match result {
        Some(Err(error)) => {
            assert!(matches!(error, SubscribeError::InsertSubscriberError(_)));
            assert_eq!(error.kind(), FailureKind::PersistenceFailed);
            assert_eq!(error.message(), "Failed to insert new subscriber in the database.");
            assert_eq!(
                error.chain_string(),
                "Failed to insert new subscriber in the database.\n\nCaused by:\n\tcolumn email does not exist\n"
            );
        }
        _ => panic!("the store failed, and so must the subscription"),
    }
}

#[test]
fn a_failed_token_is_rolled_back_and_no_email_is_sent() {
    let (asked, result) = drive(started(), vec![ok(), ok(), fault("duplicate key"), fault("rollback failed too")]);
    assert_eq!(asked.len(), 4);
    assert_eq!(asked[3], "rollback");
    match result {
        Some(Err(error)) => {
            assert!(matches!(error, SubscribeError::StoreTokenError(_)));
            assert_eq!(error.kind(), FailureKind::PersistenceFailed);
            assert_eq!(error.message(), "Failed to store the confirmation token for a new subscriber.");
            assert_eq!(
                error.source(),
                Some("A database error was encountered while trying to store a subscription token.".to_string())
            );
            assert_eq!(
                error.chain_string(),
                "Failed to store the confirmation token for a new subscriber.\n\nCaused by:\n\tA database error was encountered while trying to store a subscription token.\nCaused by:\n\tduplicate key\n"
            );
        }
        _ => panic!("the store failed, and so must the subscription"),
    }
}

#[test]
fn a_failed_commit_is_rolled_back_and_no_email_is_sent() {
    let (asked, result) = drive(started(), vec![ok(), ok(), ok(), fault("connection lost"), ok()]);
    assert_eq!(asked.len(), 5);
    assert_eq!(asked[3], "commit");
    assert_eq!(asked[4], "rollback");
    match result {
        Some(Err(error)) => {
            assert!(matches!(error, SubscribeError::TransactionCommitError(_)));
            assert_eq!(error.kind(), FailureKind::PersistenceFailed);
            assert_eq!(error.message(), "Failed to commit SQL transaction to store a new subscriber.");
        }
        _ => panic!("the store failed, and so must the subscription"),
    }
}

#[test]
fn a_failed_email_is_no_persistence_failure_and_rolls_nothing_back() {
    let (asked, result) = drive(started(), vec![ok(), ok(), ok(), ok(), fault("bad request")]);
    assert_eq!(asked.len(), 5);
    assert!(!asked.contains(&"rollback".to_string()));
    match result {
        Some(Err(error)) => {
            assert!(matches!(error, SubscribeError::SendEmailError(_)));
            assert_eq!(error.kind(), FailureKind::DispatchFailed);
            assert_eq!(error.causes(), vec!["bad request".to_string()]);
        }
        _ => panic!("the transport failed, and so must the subscription"),
    }
}

#[test]
fn a_validation_error_has_no_cause_and_asks_for_a_bad_request() {
    let error = SubscribeError::ValidationError("x is not a valid subscriber name.".to_string());
    assert_eq!(error.kind(), FailureKind::ValidationFailed);
    assert_eq!(error.status_code(), 400);
    assert_eq!(error.message(), "x is not a valid subscriber name.");
    assert_eq!(error.source(), None);
    assert!(error.causes().is_empty());
    assert_eq!(error.chain_string(), "x is not a valid subscriber name.\n\n");
}

#[test]
fn a_store_token_error_prints_its_own_chain() {
    let error = StoreTokenError(Fault::new("duplicate key".to_string()).context("insert failed".to_string()));
    assert_eq!(
        error.message(),
        "A database error was encountered while trying to store a subscription token."
    );
    assert_eq!(
        error.chain_string(),
        "A database error was encountered while trying to store a subscription token.\n\nCaused by:\n\tinsert failed\nCaused by:\n\tduplicate key\n"
    );
}

#[test]
fn tokens_are_25_letters_and_digits() {
    for _ in 0..50 {
        let token = generate_subscription_token();
        assert_eq!(token.len(), 25);
        assert!(token.chars().all(|c| c.is_ascii_alphanumeric()));
    }
}

#[test]
fn tokens_are_not_repeated() {
    let first = generate_subscription_token();
    let second = generate_subscription_token();
    assert_ne!(first, second);
}

#[test]
fn the_confirmation_email_is_composed_word_for_word() {
    let to = SubscriberEmail::parse("ursula_le_guin@gmail.com".to_string()).unwrap();
    let email = confirmation_email(to, "http://127.0.0.1/", "abc");
    assert_eq!(email.to.as_ref(), "ursula_le_guin@gmail.com");
    assert_eq!(email.subject, "Welcome");
    assert_eq!(
        email.html_content,
        "Welcome to our newsletter!<br />Click <a href=\"http://127.0.0.1/subscriptions/confirm?subscription_token=abc\"here</a> to confirm your subscription."
    );
    assert_eq!(
        email.text_content,
        "Welcome to our newsletter!\nVisit http://127.0.0.1/subscriptions/confirm?subscription_token=abc to confirm your subscription."
    );
}

#[test]
fn the_confirmation_email_is_handed_to_the_transport() {
    let outbox = Outbox::new();
    let service = EmailService::new(Email::parse("newsletter@example.com".to_string()).unwrap());
    let result = send_confirmation_email(
        new_subscriber("le guin", "ursula_le_guin@gmail.com"),
        &service,
        &outbox,
        "http://127.0.0.1/",
        "abc",
    );
    assert!(result.is_ok());
    let sent = outbox.sent.lock().unwrap();
    assert_eq!(sent.len(), 1);
    assert_eq!(sent[0].from, "newsletter@example.com");
    assert_eq!(sent[0].to, "ursula_le_guin@gmail.com");
    assert_eq!(sent[0].subject, "Welcome");
    assert_eq!(link_in(&sent[0].html), "http://127.0.0.1/subscriptions/confirm?subscription_token=abc");
    assert_eq!(link_in(&sent[0].text), "http://127.0.0.1/subscriptions/confirm?subscription_token=abc");
}

#[test]
fn errors_of_the_parts_become_errors_of_the_subscription() {
    let error = SubscribeError::from("no name".to_string());
    assert!(matches!(error, SubscribeError::ValidationError(_)));
    assert_eq!(error.message(), "no name");

    let error = SubscribeError::from(StoreTokenError(Fault::new("duplicate key".to_string())));
    assert!(matches!(error, SubscribeError::StoreTokenError(_)));
    assert_eq!(error.status_code(), 500);

    let error = SubscribeError::from(zero2prod::email::email_client::EmailClientError::SendEmailError(
        Fault::new("bad request".to_string()),
    ));
    assert!(matches!(error, SubscribeError::SendEmailError(_)));
    assert_eq!(error.source(), Some("bad request".to_string()));
}
