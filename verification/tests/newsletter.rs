use std::sync::Mutex;
use zero2prod::domain::Email;
use zero2prod::email::email_client::{EmailClient, EmailService, SendEmailRequest};
use zero2prod::error::{FailureKind, Fault};
use zero2prod::routes::newsletters::{
    get_confirmed_subscribers, publish_newsletter, BodyData, Content, PublishError, PublishStep,
};
use zero2prod::service::run_publication;
use zero2prod::store::{SubscriberId, SubscriberStore};

/// A transport that keeps the recipients it is asked to send to, and fails
/// on one request (counted from 1), if told so.
struct Outbox {
    recipients: Mutex<Vec<String>>,
    subjects: Mutex<Vec<String>>,
    fail_on: Option<usize>,
}

impl Outbox {
    fn new() -> Outbox {
        Outbox { recipients: Mutex::new(Vec::new()), subjects: Mutex::new(Vec::new()), fail_on: None }
    }

    fn failing_on(n: usize) -> Outbox {
        Outbox { recipients: Mutex::new(Vec::new()), subjects: Mutex::new(Vec::new()), fail_on: Some(n) }
    }

    fn recipients(&self) -> Vec<String> {
        self.recipients.lock().unwrap().clone()
    }
}

impl EmailClient for Outbox {
    fn send_email(&self, _: &Email, request: SendEmailRequest<'_>) -> Result<(), Fault> {
        let mut recipients = self.recipients.lock().unwrap();
        recipients.push(request.to.as_ref().to_string());
        self.subjects.lock().unwrap().push(request.subject.to_string());
        if self.fail_on == Some(recipients.len()) {
            Err(Fault::new("throttled".to_string()).context("Aws client failed to send email.".to_string()))
        } else {
            Ok(())
        }
    }
}

fn issue() -> BodyData {
    BodyData {
        title: "Newsletter tittle".to_string(),
        content: Content {
            text: "Newsletter body as plain text".to_string(),
            html: "<p>Newsletter body as HTML</p>".to_string(),
        },
    }
}

fn service() -> EmailService {
    EmailService::new(Email::parse("newsletter@example.com".to_string()).unwrap())
}

/// A store with one subscriber for each address, confirmed where told so.
fn store_with(subscribers: &[(&str, bool)]) -> SubscriberStore {
    let mut store = SubscriberStore::new();
    for (n, (email, confirmed)) in subscribers.iter().enumerate() {
        let id = SubscriberId(n as u128 + 1);
        assert_eq!(store.begin(), Ok(()));
        assert_eq!(store.insert_subscriber(id, email, "le guin", 0), Ok(()));
        assert_eq!(store.insert_token(&format!("token-{}", n), id), Ok(()));
        assert_eq!(store.commit(), Ok(()));
        if *confirmed {
            store.confirm_subscriber(id);
        }
    }
    store
}

fn status(result: &Result<(), PublishError>) -> u16 {
    match result {
        Ok(()) => 200,
        Err(error) => error.status_code(),
    }
}

fn rows(emails: &[&str]) -> Vec<String> {
    emails.iter().map(|e| e.to_string()).collect()
}

/// Carries a publication on with `outcomes`; gives the recipients that an
/// e-mail was asked for, the rows that were skipped, and the result if the
/// publication came to an end.
fn drive(
    mut step: PublishStep,
    outcomes: Vec<Result<(), Fault>>,
) -> (Vec<String>, Vec<String>, Option<Result<(), PublishError>>) {
    let mut asked = Vec::new();
    let mut passed_over = Vec::new();
    let mut outcomes = outcomes.into_iter();
    loop {
        match step {
            PublishStep::Done { result, skipped } => {
                passed_over.extend(skipped);
                return (asked, passed_over, Some(result));
            }
            PublishStep::Send { dispatch, email, skipped } => {
                passed_over.extend(skipped);
                assert_eq!(email.subject, "Newsletter tittle");
                assert_eq!(email.html_content, "<p>Newsletter body as HTML</p>");
                assert_eq!(email.text_content, "Newsletter body as plain text");
                asked.push(email.to.as_ref().to_string());
                match outcomes.next() {
                    Some(outcome) => step = dispatch.delivered(outcome),
                    None => return (asked, passed_over, None),
                }
            }
        }
    }
}

#[test]
fn newsletters_are_not_delivered_to_unconfirmed_subscribers() {
    let store = store_with(&[("ursula_le_guin@gmail.com", false)]);
    let outbox = Outbox::new();

    let response = run_publication(&store, &service(), &outbox, issue());

    assert_eq!(status(&response), 200);
    assert!(outbox.recipients().is_empty());
}

#[test]
fn newsletters_are_delivered_to_confirmed_subscribers() {
    let store = store_with(&[("ursula_le_guin@gmail.com", true)]);
    let outbox = Outbox::new();

    let response = run_publication(&store, &service(), &outbox, issue());

    assert_eq!(status(&response), 200);
    assert_eq!(outbox.recipients().len(), 1);
    assert_eq!(outbox.subjects.lock().unwrap()[0], "Newsletter tittle");
}

#[test]
fn publishing_to_nobody_sends_nothing_and_succeeds() {
    let store = SubscriberStore::new();
    let outbox = Outbox::new();

    let response = run_publication(&store, &service(), &outbox, issue());

    assert!(response.is_ok());
    assert!(outbox.recipients().is_empty());
}

#[test]
fn one_confirmed_and_one_pending_subscriber_get_exactly_one_email() {
    let store = store_with(&[("pending@example.com", false), ("confirmed@example.com", true)]);
    let outbox = Outbox::new();

    let response = run_publication(&store, &service(), &outbox, issue());

    assert!(response.is_ok());
    assert_eq!(outbox.recipients(), vec!["confirmed@example.com".to_string()]);
}

#[test]
fn the_first_failure_of_the_transport_ends_the_publication() {
    let store = store_with(&[
        ("one@example.com", true),
        ("two@example.com", true),
        ("three@example.com", true),
        ("four@example.com", true),
    ]);
    // The third of four deliveries fails.
    let outbox = Outbox::failing_on(3);

    let response = run_publication(&store, &service(), &outbox, issue());

    // Two deliveries went through, the third was tried, the fourth was not.
    assert_eq!(
        outbox.recipients(),
        vec!["one@example.com".to_string(), "two@example.com".to_string(), "three@example.com".to_string()]
    );
    match &response {
        Err(error) => {
            assert!(matches!(error, PublishError::DispatchFailed(_)));
            assert_eq!(error.kind(), FailureKind::DispatchFailed);
            assert_eq!(error.status_code(), 500);
            assert_eq!(error.message(), "Failed to send newsletter issue to three@example.com");
            assert_eq!(
                error.chain_string(),
                "Failed to send newsletter issue to three@example.com\n\nCaused by:\n\tAws client failed to send email.\nCaused by:\n\tthrottled\n"
            );
        }
        Ok(()) => panic!("the transport failed, and so must the publication"),
    }
    // The store is as it was.
    assert_eq!(store.list_confirmed_subscriber_emails().len(), 4);
}

#[test]
fn a_failure_on_the_first_recipient_delivers_nothing() {
    let store = store_with(&[("one@example.com", true), ("two@example.com", true)]);
    let outbox = Outbox::failing_on(1);

    let response = run_publication(&store, &service(), &outbox, issue());

    assert!(response.is_err());
    assert_eq!(outbox.recipients(), vec!["one@example.com".to_string()]);
}

#[test]
fn a_stored_address_that_is_not_valid_is_skipped_and_the_rest_is_served() {
    let store = store_with(&[
        ("one@example.com", true),
        ("not-an-email", true),
        ("three@example.com", true),
    ]);
    let outbox = Outbox::new();

    let response = run_publication(&store, &service(), &outbox, issue());

    assert!(response.is_ok());
    assert_eq!(outbox.recipients(), vec!["one@example.com".to_string(), "three@example.com".to_string()]);
}

#[test]
fn stored_addresses_are_validated_again() {
    let confirmed = get_confirmed_subscribers(rows(&["one@example.com", "", "two@example.com", "no-at-sign"]));
    assert_eq!(confirmed.len(), 4);
    assert_eq!(confirmed[0].as_ref().unwrap().email.as_ref(), "one@example.com");
    assert_eq!(confirmed[1].as_ref().unwrap_err(), " is not a valid subscriber email.");
    assert_eq!(confirmed[2].as_ref().unwrap().email.as_ref(), "two@example.com");
    assert_eq!(confirmed[3].as_ref().unwrap_err(), "no-at-sign is not a valid subscriber email.");
}

#[test]
fn a_store_that_cannot_list_ends_the_publication_before_any_email() {
    let step = publish_newsletter(issue()).listed(Err(Fault::new("connection lost".to_string())));
    let (asked, skipped, result) = drive(step, vec![Ok(())]);
    assert!(asked.is_empty());
    assert!(skipped.is_empty());
    match result {
        Some(Err(error)) => {
            assert!(matches!(error, PublishError::PersistenceFailed(_)));
            assert_eq!(error.kind(), FailureKind::PersistenceFailed);
            assert_eq!(error.status_code(), 500);
            assert_eq!(error.message(), "connection lost");
            assert_eq!(error.chain_string(), "connection lost\n\n");
        }
        _ => panic!("the store failed, and so must the publication"),
    }
}

#[test]
fn an_empty_list_ends_the_publication_with_success() {
    let step = publish_newsletter(issue()).listed(Ok(Vec::new()));
    let (asked, skipped, result) = drive(step, vec![]);
    assert!(asked.is_empty());
    assert!(skipped.is_empty());
    assert!(matches!(result, Some(Ok(()))));
}

#[test]
fn every_step_reports_the_rows_it_passed_over() {
    let step = publish_newsletter(issue()).listed(Ok(rows(&["bad-1", "one@example.com", "bad-2", "bad-3", "two@example.com", "bad-4"])));
    match step {
        PublishStep::Send { dispatch, email, skipped } => {
            assert_eq!(email.to.as_ref(), "one@example.com");
            assert_eq!(skipped, vec!["bad-1 is not a valid subscriber email.".to_string()]);
            match dispatch.delivered(Ok(())) {
                PublishStep::Send { dispatch, email, skipped } => {
                    assert_eq!(email.to.as_ref(), "two@example.com");
                    assert_eq!(
                        skipped,
                        vec![
                            "bad-2 is not a valid subscriber email.".to_string(),
                            "bad-3 is not a valid subscriber email.".to_string()
                        ]
                    );
                    match dispatch.delivered(Ok(())) {
                        PublishStep::Done { result, skipped } => {
                            assert!(result.is_ok());
                            assert_eq!(skipped, vec!["bad-4 is not a valid subscriber email.".to_string()]);
                        }
                        _ => panic!("nobody is left"),
                    }
                }
                _ => panic!("a second recipient is left"),
            }
        }
        _ => panic!("there are two recipients"),
    }
}

#[test]
fn a_failure_on_the_nth_of_m_recipients_leaves_the_rest_unserved() {
    let all = ["r1@example.com", "r2@example.com", "r3@example.com", "r4@example.com", "r5@example.com"];
    for n in 1..=all.len() {
        let step = publish_newsletter(issue()).listed(Ok(rows(&all)));
        let mut outcomes: Vec<Result<(), Fault>> = (1..n).map(|_| Ok(())).collect();
        outcomes.push(Err(Fault::new("throttled".to_string())));
        outcomes.extend((n..all.len()).map(|_| Ok(())));

        let (asked, _, result) = drive(step, outcomes);

        assert_eq!(asked, rows(&all[..n]));
        match result {
            Some(Err(PublishError::DispatchFailed(fault))) => {
                assert_eq!(fault.message, format!("Failed to send newsletter issue to {}", all[n - 1]));
                assert_eq!(fault.causes, vec!["throttled".to_string()]);
            }
            _ => panic!("the transport failed, and so must the publication"),
        }
    }
}

#[test]
fn a_publication_waits_when_the_outcomes_run_out() {
    let step = publish_newsletter(issue()).listed(Ok(rows(&["one@example.com", "two@example.com"])));
    let (asked, _, result) = drive(step, vec![Ok(())]);
    assert_eq!(asked, rows(&["one@example.com", "two@example.com"]));
    assert!(result.is_none());
}
