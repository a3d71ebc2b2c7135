use zero2prod::error::{clone_strings, error_chain_fmt, FailureKind, Fault};

#[test]
fn an_error_without_causes_is_printed_as_its_message_and_an_empty_line() {
    let causes: Vec<String> = Vec::new();
    assert_eq!(error_chain_fmt("it failed", &causes), "it failed\n\n");
}

#[test]
fn every_cause_is_printed_on_its_own_indented_line() {
    let causes = vec!["the pool is closed".to_string(), "connection refused".to_string()];
    assert_eq!(
        error_chain_fmt("Failed to acquire a Postgres connection from the pool.", &causes),
        "Failed to acquire a Postgres connection from the pool.\n\nCaused by:\n\tthe pool is closed\nCaused by:\n\tconnection refused\n"
    );
}

#[test]
fn a_new_fault_has_no_cause() {
    let fault = Fault::new("connection refused".to_string());
    assert_eq!(fault.message, "connection refused");
    assert!(fault.causes.is_empty());
    assert_eq!(fault.chain(), vec!["connection refused".to_string()]);
}

#[test]
fn context_puts_a_message_in_front_of_the_chain() {
    let fault = Fault::new("connection refused".to_string())
        .context("the pool is closed".to_string())
        .context("cannot list subscribers".to_string());
    assert_eq!(fault.message, "cannot list subscribers");
    assert_eq!(
        fault.causes,
        vec!["the pool is closed".to_string(), "connection refused".to_string()]
    );
    assert_eq!(
        fault.chain(),
        vec![
            "cannot list subscribers".to_string(),
            "the pool is closed".to_string(),
            "connection refused".to_string()
        ]
    );
    let copy = fault.clone();
    assert_eq!(copy.message, fault.message);
    assert_eq!(copy.causes, fault.causes);
}

#[test]
fn strings_are_copied_one_by_one() {
    let strings = vec!["a".to_string(), "".to_string(), "b c".to_string()];
    assert_eq!(clone_strings(&strings), strings);
    assert_eq!(clone_strings(&Vec::new()), Vec::<String>::new());
}

#[test]
fn each_kind_of_failure_has_its_status() {
    assert_eq!(FailureKind::ValidationFailed.status_code(), 400);
    assert_eq!(FailureKind::Unauthorized.status_code(), 401);
    assert_eq!(FailureKind::PersistenceFailed.status_code(), 500);
    assert_eq!(FailureKind::DispatchFailed.status_code(), 500);
}
