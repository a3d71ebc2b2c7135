use zero2prod::store::{StoreError, SubscriberId, SubscriberStore, SubscriptionStatus};

fn store_with(rows: &[(u128, &str, &str, &str)]) -> SubscriberStore {
    let mut store = SubscriberStore::new();
    for (id, email, name, token) in rows {
        assert_eq!(store.begin(), Ok(()));
        assert_eq!(store.insert_subscriber(SubscriberId(*id), email, name, 0), Ok(()));
        assert_eq!(store.insert_token(token, SubscriberId(*id)), Ok(()));
        assert_eq!(store.commit(), Ok(()));
    }
    store
}

#[test]
fn a_new_store_holds_nothing() {
    let store = SubscriberStore::new();
    assert!(store.subscribers().is_empty());
    assert!(store.tokens().is_empty());
    assert!(store.list_confirmed_subscriber_emails().is_empty());
    assert_eq!(store.lookup_subscriber_by_token("anything"), None);
}

#[test]
fn a_subscriber_is_always_kept_as_pending() {
    let store = store_with(&[(1, "ursula_le_guin@gmail.com", "le guin", "token-1")]);
    assert_eq!(store.subscribers().len(), 1);
    let row = &store.subscribers()[0];
    assert_eq!(row.id, SubscriberId(1));
    assert_eq!(row.email, "ursula_le_guin@gmail.com");
    assert_eq!(row.name, "le guin");
    assert_eq!(row.status, SubscriptionStatus::PendingConfirmation);
    assert_eq!(row.status.as_str(), "pending_confirmation");
    assert_eq!(store.tokens().len(), 1);
    assert_eq!(store.tokens()[0].subscription_token, "token-1");
    assert_eq!(store.tokens()[0].subscriber_id, SubscriberId(1));
}

#[test]
fn rows_are_not_kept_before_the_commit() {
    let mut store = SubscriberStore::new();
    assert_eq!(store.begin(), Ok(()));
    assert_eq!(store.insert_subscriber(SubscriberId(1), "a@b.co", "a", 7), Ok(()));
    assert_eq!(store.insert_token("token-1", SubscriberId(1)), Ok(()));
    assert!(store.subscribers().is_empty());
    assert!(store.tokens().is_empty());
    assert_eq!(store.lookup_subscriber_by_token("token-1"), None);
    assert_eq!(store.commit(), Ok(()));
    assert_eq!(store.subscribers().len(), 1);
    assert_eq!(store.subscribers()[0].subscribed_at, 7);
    assert_eq!(store.lookup_subscriber_by_token("token-1"), Some(SubscriberId(1)));
}

#[test]
fn a_rollback_keeps_neither_row() {
    let mut store = store_with(&[(1, "a@b.co", "a", "token-1")]);
    assert_eq!(store.begin(), Ok(()));
    assert_eq!(store.insert_subscriber(SubscriberId(2), "c@d.co", "c", 0), Ok(()));
    assert_eq!(store.insert_token("token-2", SubscriberId(2)), Ok(()));
    store.rollback();
    assert_eq!(store.subscribers().len(), 1);
    assert_eq!(store.tokens().len(), 1);
    assert_eq!(store.lookup_subscriber_by_token("token-2"), None);
    // The transaction is closed: a new one can be opened, and nothing is left of the old one.
    assert_eq!(store.begin(), Ok(()));
    assert_eq!(store.commit(), Ok(()));
    assert_eq!(store.subscribers().len(), 1);
}

#[test]
fn the_store_turns_down_what_breaks_its_rules() {
    let mut store = store_with(&[(1, "a@b.co", "a", "token-1")]);
    assert_eq!(store.insert_subscriber(SubscriberId(2), "c@d.co", "c", 0), Err(StoreError::NoTransaction));
    assert_eq!(store.insert_token("token-2", SubscriberId(1)), Err(StoreError::NoTransaction));
    assert_eq!(store.commit(), Err(StoreError::NoTransaction));
    assert_eq!(store.begin(), Ok(()));
    assert_eq!(store.begin(), Err(StoreError::TransactionOpen));
    assert_eq!(store.insert_subscriber(SubscriberId(1), "c@d.co", "c", 0), Err(StoreError::DuplicateSubscriber));
    assert_eq!(store.insert_token("token-1", SubscriberId(1)), Err(StoreError::DuplicateToken));
    assert_eq!(store.insert_token("token-2", SubscriberId(9)), Err(StoreError::UnknownSubscriber));
    assert_eq!(store.insert_subscriber(SubscriberId(2), "c@d.co", "c", 0), Ok(()));
    assert_eq!(store.insert_subscriber(SubscriberId(2), "e@f.co", "e", 0), Err(StoreError::DuplicateSubscriber));
    assert_eq!(store.insert_token("token-2", SubscriberId(2)), Ok(()));
    assert_eq!(store.insert_token("token-2", SubscriberId(2)), Err(StoreError::DuplicateToken));
    assert_eq!(store.commit(), Ok(()));
    assert_eq!(store.subscribers().len(), 2);
    assert_eq!(store.tokens().len(), 2);
}

#[test]
fn a_subscriber_may_have_more_than_one_token() {
    let mut store = store_with(&[(1, "a@b.co", "a", "token-1")]);
    assert_eq!(store.begin(), Ok(()));
    assert_eq!(store.insert_token("token-1b", SubscriberId(1)), Ok(()));
    assert_eq!(store.commit(), Ok(()));
    assert_eq!(store.lookup_subscriber_by_token("token-1"), Some(SubscriberId(1)));
    assert_eq!(store.lookup_subscriber_by_token("token-1b"), Some(SubscriberId(1)));
}

#[test]
fn the_same_address_may_be_kept_twice() {
    let store = store_with(&[
        (1, "ursula_le_guin@gmail.com", "le guin", "token-1"),
        (2, "ursula_le_guin@gmail.com", "le guin", "token-2"),
    ]);
    assert_eq!(store.subscribers().len(), 2);
    assert_eq!(store.subscribers()[0].email, store.subscribers()[1].email);
    assert_ne!(store.subscribers()[0].id, store.subscribers()[1].id);
}

#[test]
fn confirming_sets_the_status_of_one_subscriber_and_is_idempotent() {
    let mut store = store_with(&[
        (1, "a@b.co", "a", "token-1"),
        (2, "c@d.co", "c", "token-2"),
        (3, "e@f.co", "e", "token-3"),
    ]);
    store.confirm_subscriber(SubscriberId(2));
    assert_eq!(store.subscribers()[0].status, SubscriptionStatus::PendingConfirmation);
    assert_eq!(store.subscribers()[1].status, SubscriptionStatus::Confirmed);
    assert_eq!(store.subscribers()[1].status.as_str(), "confirmed");
    assert_eq!(store.subscribers()[2].status, SubscriptionStatus::PendingConfirmation);
    store.confirm_subscriber(SubscriberId(2));
    assert_eq!(store.subscribers()[1].status, SubscriptionStatus::Confirmed);
    assert_eq!(store.subscribers()[1].email, "c@d.co");
    // An identifier that nobody has changes nothing.
    store.confirm_subscriber(SubscriberId(9));
    assert_eq!(store.subscribers()[0].status, SubscriptionStatus::PendingConfirmation);
    assert_eq!(store.subscribers().len(), 3);
}

#[test]
fn only_confirmed_subscribers_are_listed_in_the_order_of_the_store() {
    let mut store = store_with(&[
        (1, "a@b.co", "a", "token-1"),
        (2, "c@d.co", "c", "token-2"),
        (3, "e@f.co", "e", "token-3"),
    ]);
    store.confirm_subscriber(SubscriberId(3));
    store.confirm_subscriber(SubscriberId(1));
    assert_eq!(
        store.list_confirmed_subscriber_emails(),
        vec![(SubscriberId(1), "a@b.co".to_string()), (SubscriberId(3), "e@f.co".to_string())]
    );
}

#[test]
fn a_store_error_becomes_a_fault_with_its_message() {
    let fault = StoreError::DuplicateToken.into_fault();
    assert_eq!(fault.message, "duplicate subscription token");
    assert!(fault.causes.is_empty());
    assert_eq!(StoreError::TransactionOpen.into_fault().message, "a transaction is already open");
    assert_eq!(StoreError::NoTransaction.into_fault().message, "no transaction is open");
    assert_eq!(StoreError::DuplicateSubscriber.into_fault().message, "duplicate subscriber id");
    assert_eq!(
        StoreError::UnknownSubscriber.into_fault().message,
        "the token refers to an unknown subscriber"
    );
}
