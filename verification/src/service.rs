//! The three operations, carried out from start to end on a store in memory
//! and a transport at hand: every piece of outside work that an operation
//! asks for is done at once, and its outcome is handed back.

use crate::domain::email::Email;
use crate::domain::new_subscriber::NewSubscriberView;
use crate::email::email_client::{
    answered,
    service_outcome,
    transport_accepted,
    transport_answered,
    EmailClient,
    EmailService,
};
use crate::error::{outcome_view, texts, FailureKind, Fault, FaultView};
use crate::routes::newsletters::{
    advance,
    dispatch_failed,
    issue_email,
    lemma_next_recipient,
    lemma_recipients_step,
    parse_rows,
    publish_newsletter,
    recipients,
    recipients_from,
    BodyData,
    IssueView,
    PublishError,
    PublishErrorView,
    PublishStep,
    PublishStepView,
};
use crate::routes::subscriptions::{
    is_token,
    new_subscriber_spec,
    subscribe,
    FormData,
    FormView,
    SubscribeAction,
    SubscribeActionView,
    SubscribeError,
    SubscribeErrorView,
    SubscribeStageView,
    SubscribeStep,
    SubscribeStepView,
};
use crate::routes::subscriptions_confirm::{confirm, ConfirmError, ConfirmErrorView, Parameters};
use crate::startup::ApplicationBaseUrl;
use crate::store::{
    has_subscriber,
    has_token,
    law_begin_keeps_well_formed,
    law_commit_keeps_all,
    law_confirm_is_idempotent,
    law_insert_subscriber_keeps_well_formed,
    law_insert_token_keeps_well_formed,
    lemma_has_subscriber_in_either,
    lemma_has_token_in_either,
    lemma_token_position,
    pairs_view,
    token_position,
    StoreError,
    StoreView,
    SubscriberId,
    SubscriberStore,
    SubscriberView,
    SubscriptionStatus,
    TokenView,
};
use vstd::prelude::*;

verus! {

/// What a confirmation does to a store, and how it ends: without a token,
/// or with one that no subscriber has, the store stays as it is; with a
/// known token, the subscriber behind it is confirmed.
pub open spec fn confirmation_run(store: StoreView, subscription_token: Seq<char>) -> (
    StoreView,
    Result<(), ConfirmErrorView>,
) {
    if subscription_token.len() == 0 {
        (store, Err(ConfirmErrorView::ValidationFailed))
    } else {
        match store.lookup(subscription_token) {
            None => (store, Err(ConfirmErrorView::Unauthorized)),
            Some(subscriber_id) => (store.confirm(subscriber_id), Ok(())),
        }
    }
}

/// A result of a confirmation as plain text.
pub open spec fn confirm_result_view(result: Result<(), ConfirmError>) -> Result<
    (),
    ConfirmErrorView,
> {
    match result {
        Ok(()) => Ok(()),
        Err(error) => Err(error@),
    }
}

/// Confirms the subscription behind a token on a store in memory.
pub fn run_confirmation(store: &mut SubscriberStore, parameters: Parameters) -> (result: Result<
    (),
    ConfirmError,
>)
    ensures
        (final(store)@, confirm_result_view(result)) == confirmation_run(old(store)@, parameters@),
{
    let lookup = match confirm(parameters) {
        Ok(lookup) => lookup,
        Err(error) => {
            return Err(error);
        },
    };
    let found = store.lookup_subscriber_by_token(lookup.subscription_token());
    let confirmation = match lookup.found(Ok(found)) {
        Ok(confirmation) => confirmation,
        Err(error) => {
            return Err(error);
        },
    };
    store.confirm_subscriber(confirmation.subscriber_id());
    confirmation.confirmed(Ok(()))
}

/// A confirmation without a token, or with a token that no subscriber has,
/// fails, as a validation failure or as not authorized, and changes no row.
pub proof fn law_unknown_token_changes_nothing(store: StoreView, subscription_token: Seq<char>)
    requires
        subscription_token.len() == 0 || store.lookup(subscription_token) is None,
    ensures
        confirmation_run(store, subscription_token).0 == store,
        subscription_token.len() == 0 ==> confirmation_run(store, subscription_token).1 == Err::<
            (),
            ConfirmErrorView,
        >(ConfirmErrorView::ValidationFailed),
        subscription_token.len() > 0 ==> confirmation_run(store, subscription_token).1 == Err::<
            (),
            ConfirmErrorView,
        >(ConfirmErrorView::Unauthorized),
{
}

/// A confirmation with a known token succeeds and leaves the subscriber
/// behind the token confirmed. The token is as good afterwards as before: a
/// second confirmation with it succeeds too and changes nothing any more.
pub proof fn law_confirmation_is_idempotent(
    store: StoreView,
    subscription_token: Seq<char>,
    subscriber_id: SubscriberId,
)
    requires
        store.wf(),
        subscription_token.len() > 0,
        store.lookup(subscription_token) == Some(subscriber_id),
    ensures
        ({
            let (once, first) = confirmation_run(store, subscription_token);
            let (twice, second) = confirmation_run(once, subscription_token);
            &&& first is Ok
            &&& once == store.confirm(subscriber_id)
            &&& has_subscriber(once.subscribers, subscriber_id)
            &&& forall|i: int|
                0 <= i < once.subscribers.len() && (#[trigger] once.subscribers[i]).id
                    == subscriber_id ==> once.subscribers[i].status
                    == SubscriptionStatus::Confirmed
            &&& second is Ok
            &&& twice == once
        }),
{
    let once = store.confirm(subscriber_id);
    assert(once.lookup(subscription_token) == store.lookup(subscription_token));
    law_confirm_is_idempotent(store, subscriber_id);
    lemma_token_position(store.tokens, subscription_token, 0);
    let at = token_position(store.tokens, subscription_token, 0);
    assert(has_subscriber(store.subscribers, store.tokens[at].subscriber_id));
    let k = choose|k: int|
        0 <= k < store.subscribers.len() && (#[trigger] store.subscribers[k]).id == subscriber_id;
    assert(once.subscribers[k].id == subscriber_id);
}

/// The addresses of the rows, without the identifiers.
pub open spec fn emails_of(rows: Seq<(SubscriberId, Seq<char>)>) -> Seq<Seq<char>> {
    Seq::new(rows.len(), |i: int| rows[i].1)
}

/// The addresses that an issue goes to when it is published from `store`.
pub open spec fn store_recipients(store: StoreView) -> Seq<Seq<char>> {
    recipients(emails_of(store.confirmed()))
}

/// A result of a publication as plain text.
pub open spec fn publish_result_view(result: Result<(), PublishError>) -> Result<
    (),
    PublishErrorView,
> {
    match result {
        Ok(()) => Ok(()),
        Err(error) => Err(error@),
    }
}

/// Whether the transport accepted the issue for each of the first
/// `delivered` recipients.
pub open spec fn delivered_to<C: EmailClient>(
    email_client: &C,
    sender: Email,
    issue: IssueView,
    to: Seq<Seq<char>>,
    delivered: int,
) -> bool {
    &&& 0 <= delivered <= to.len()
    &&& forall|k: int|
        0 <= k < delivered ==> transport_accepted(
            email_client,
            sender,
            issue_email(issue, #[trigger] to[k]),
        )
}

/// What a publication of `issue` to the recipients `to` has done when it
/// ends with `result`, in terms of what the transport answered.
///
/// The transport accepted the issue for the first `delivered` recipients,
/// one after the other. A publication that succeeds has delivered to all of
/// them. One that fails has stopped at the first recipient for whom the
/// transport answered with a fault, and reports that fault and that
/// recipient; the recipients after it were not served.
pub open spec fn published<C: EmailClient>(
    email_client: &C,
    sender: Email,
    issue: IssueView,
    to: Seq<Seq<char>>,
    delivered: int,
    result: Result<(), PublishErrorView>,
) -> bool {
    &&& delivered_to(email_client, sender, issue, to, delivered)
    &&& match result {
        Ok(()) => delivered == to.len(),
        Err(error) => {
            &&& delivered < to.len()
            &&& exists|fault: Fault| #[trigger]
                transport_answered(
                    email_client,
                    sender,
                    issue_email(issue, to[delivered]),
                    Err(fault),
                ) && error == dispatch_failed(to[delivered], fault@)
        },
    }
}

/// What a publication that is under way satisfies at every step, after
/// `delivered` deliveries: it waits on the next recipient, or it is over.
pub open spec fn publishing<C: EmailClient>(
    email_client: &C,
    sender: Email,
    issue: IssueView,
    entries: Seq<Result<Seq<char>, Seq<char>>>,
    delivered: int,
    step: PublishStepView,
) -> bool {
    let to = recipients_from(entries, 0);
    match step {
        PublishStepView::Send { dispatch, email, .. } => {
            &&& delivered_to(email_client, sender, issue, to, delivered)
            &&& dispatch.wf()
            &&& dispatch.issue == issue
            &&& dispatch.entries == entries
            &&& email == issue_email(issue, dispatch.recipient())
            &&& to.skip(delivered) == recipients_from(entries, dispatch.current)
        },
        PublishStepView::Done { result, .. } => published(
            email_client,
            sender,
            issue,
            to,
            delivered,
            result,
        ),
    }
}

/// The number of steps that a publication has left, at most.
pub open spec fn steps_left(step: PublishStepView) -> int {
    match step {
        PublishStepView::Send { dispatch, .. } => dispatch.entries.len() - dispatch.current + 1,
        PublishStepView::Done { .. } => 0,
    }
}

/// A step towards the next valid address goes on with the recipients that
/// are left from there, or ends with success when none is left.
proof fn lemma_advance_goes_on(
    issue: IssueView,
    entries: Seq<Result<Seq<char>, Seq<char>>>,
    from: int,
)
    requires
        0 <= from <= entries.len(),
    ensures
        match advance(issue, entries, from) {
            PublishStepView::Send { dispatch, email, .. } => {
                &&& dispatch.wf()
                &&& dispatch.issue == issue
                &&& dispatch.entries == entries
                &&& from <= dispatch.current
                &&& email == issue_email(issue, dispatch.recipient())
                &&& recipients_from(entries, from) == recipients_from(entries, dispatch.current)
            },
            PublishStepView::Done { result, .. } => {
                &&& result == Ok::<(), PublishErrorView>(())
                &&& recipients_from(entries, from).len() == 0
            },
        },
{
    lemma_next_recipient(entries, from);
    lemma_recipients_step(entries, from);
}

/// Publishes an issue from a store in memory through a transport: every
/// confirmed subscriber with a valid address is sent the issue, in the order
/// of the store, until the transport fails for the first time. The store is
/// not changed.
///
/// The result is the one that the answers of the transport call for (see
/// [`published`]): success when the transport accepted the issue for every
/// recipient, and else the failure to dispatch to the first recipient that
/// it answered with a fault for. Whether a delivery succeeds is for the
/// transport to say; without a recipient it is not asked, and the
/// publication succeeds.
pub fn run_publication<C: EmailClient>(
    store: &SubscriberStore,
    email_service: &EmailService,
    email_client: &C,
    body: BodyData,
) -> (result: Result<(), PublishError>)
    ensures
        store_recipients(store@).len() == 0 ==> result is Ok,
        exists|delivered: int| #[trigger]
            published(
                email_client,
                email_service.sender_value(),
                body@,
                store_recipients(store@),
                delivered,
                publish_result_view(result),
            ),
{
    let rows = store.list_confirmed_subscriber_emails();
    let mut emails: Vec<String> = Vec::new();
    let mut i: usize = 0;
    while i < rows.len()
        invariant
            i <= rows.len(),
            emails.len() == i,
            forall|j: int| 0 <= j < i ==> (#[trigger] emails[j])@ == rows[j].1@,
        decreases rows.len() - i,
    {
        emails.push(rows[i].1.clone());
        i = i + 1;
    }
    let ghost issue = body@;
    let ghost sender = email_service.sender_value();
    let ghost entries = parse_rows(emails_of(store@.confirmed()));
    let ghost to = recipients_from(entries, 0);
    let ghost mut delivered: int = 0;
    proof {
        assert(texts(emails@) =~= emails_of(pairs_view(rows@)));
        lemma_advance_goes_on(issue, entries, 0);
        assert(to.skip(0) =~= to);
    }
    let publication = publish_newsletter(body);
    let mut step = publication.listed(Ok(emails));
    loop
        invariant
            issue == body@,
            sender == email_service.sender_value(),
            entries == parse_rows(emails_of(store@.confirmed())),
            to == store_recipients(store@),
            to == recipients_from(entries, 0),
            publishing(email_client, sender, issue, entries, delivered, step@),
        decreases steps_left(step@),
    {
        match step {
            PublishStep::Done { result, skipped: _ } => {
                proof {
                    assert(published(
                        email_client,
                        sender,
                        issue,
                        to,
                        delivered,
                        publish_result_view(result),
                    ));
                }
                return result;
            },
            PublishStep::Send { dispatch, email, skipped: _ } => {
                let request = email.request();
                let outcome = email_service.send_email(email_client, request);
                let ghost answer: Result<(), Fault>;
                proof {
                    answer = choose|answer: Result<(), Fault>| #[trigger]
                        answered(email_client, sender, request, answer) && outcome
                            == service_outcome(answer);
                    assert(outcome == service_outcome(answer));
                }
                let reply = match outcome {
                    Ok(()) => Ok(()),
                    Err(error) => Err(error.into_fault()),
                };
                proof {
                    let current = dispatch@.current;
                    let left = recipients_from(entries, current);
                    assert(reply is Ok <==> answer is Ok);
                    assert(reply is Err ==> answer == Err::<(), Fault>(reply->Err_0));
                    assert(to.skip(delivered) == left);
                    assert(left.len() > 0);
                    assert(left[0] == dispatch@.recipient());
                    assert(to.skip(delivered)[0] == to[delivered]);
                    assert(answered(email_client, sender, request, answer));
                    assert(transport_answered(
                        email_client,
                        sender,
                        issue_email(issue, to[delivered]),
                        answer,
                    ));
                    lemma_advance_goes_on(issue, entries, current + 1);
                    if reply is Ok {
                        let rest = recipients_from(entries, current + 1);
                        assert(left =~= seq![dispatch@.recipient()] + rest);
                        assert forall|i: int| 0 <= i < rest.len() implies to.skip(delivered + 1)[i]
                            == rest[i] by {
                            assert(to.skip(delivered)[i + 1] == left[i + 1]);
                        }
                        assert(to.skip(delivered + 1) =~= rest);
                        delivered = delivered + 1;
                    }
                }
                step = dispatch.delivered(reply);
            },
        }
    }
}

/// An error of the store as the fault that is reported further.
pub open spec fn fault_of(error: StoreError) -> FaultView {
    FaultView { message: error.spec_message(), causes: Seq::empty() }
}

/// An answer of the store as the outcome that is reported further.
pub open spec fn store_reply_view(reply: Result<(), StoreError>) -> Result<(), FaultView> {
    match reply {
        Ok(()) => Ok(()),
        Err(error) => Err(fault_of(error)),
    }
}

/// Turns an answer of the store into the outcome that is reported further.
fn store_reply(reply: Result<(), StoreError>) -> (outcome: Result<(), Fault>)
    ensures
        outcome_view(outcome) == store_reply_view(reply),
{
    match reply {
        Ok(()) => Ok(()),
        Err(error) => Err(error.into_fault()),
    }
}

/// What a subscription does to a store, and how it ends, for a validated
/// subscriber, the token and the identifier made for it, and the outcome of
/// sending the e-mail.
///
/// The subscriber and the token are kept in one transaction. If the store
/// turns any of it down, the transaction is rolled back, the failure is
/// reported and the e-mail is not sent. Once the transaction is committed,
/// the rows stay, whatever becomes of the e-mail.
pub open spec fn subscription_run(
    store: StoreView,
    subscriber: NewSubscriberView,
    subscription_token: Seq<char>,
    subscriber_id: SubscriberId,
    subscribed_at: i64,
    email_outcome: Result<(), FaultView>,
) -> (StoreView, Result<(), SubscribeErrorView>) {
    match store.begin() {
        Err(error) => (store, Err(SubscribeErrorView::PoolError(fault_of(error)))),
        Ok(begun) => match begun.insert_subscriber(
            subscriber_id,
            subscriber.email,
            subscriber.name,
            subscribed_at,
        ) {
            Err(error) => (
                begun.rollback(),
                Err(SubscribeErrorView::InsertSubscriberError(fault_of(error))),
            ),
            Ok(inserted) => match inserted.insert_token(subscription_token, subscriber_id) {
                Err(error) => (
                    inserted.rollback(),
                    Err(SubscribeErrorView::StoreTokenError(fault_of(error))),
                ),
                Ok(stored) => match stored.commit() {
                    Err(error) => (
                        stored.rollback(),
                        Err(SubscribeErrorView::TransactionCommitError(fault_of(error))),
                    ),
                    Ok(committed) => (
                        committed,
                        match email_outcome {
                            Ok(()) => Ok(()),
                            Err(fault) => Err(SubscribeErrorView::SendEmailError(fault)),
                        },
                    ),
                },
            },
        },
    }
}

/// Whether a subscription with these ingredients leaves the store as
/// `after` and ends with `result`.
pub open spec fn subscription_led_to(
    before: StoreView,
    subscriber: NewSubscriberView,
    subscription_token: Seq<char>,
    subscriber_id: SubscriberId,
    subscribed_at: i64,
    email_outcome: Result<(), FaultView>,
    after: StoreView,
    result: Result<(), SubscribeErrorView>,
) -> bool {
    subscription_run(
        before,
        subscriber,
        subscription_token,
        subscriber_id,
        subscribed_at,
        email_outcome,
    ) == (after, result)
}

/// The row that a new subscriber is kept as: pending confirmation.
pub open spec fn pending_row(
    subscriber: NewSubscriberView,
    subscriber_id: SubscriberId,
    subscribed_at: i64,
) -> SubscriberView {
    SubscriberView {
        id: subscriber_id,
        email: subscriber.email,
        name: subscriber.name,
        status: SubscriptionStatus::PendingConfirmation,
        subscribed_at,
    }
}

/// A subscription with a fresh identifier and a fresh token, on a store
/// without an open transaction, keeps exactly one new subscriber, pending
/// confirmation, and exactly one new token, bound to that subscriber, which
/// the token then resolves to. The rows are kept whether the e-mail is
/// delivered or not; the result says which.
pub proof fn law_subscription_keeps_one_of_each(
    store: StoreView,
    subscriber: NewSubscriberView,
    subscription_token: Seq<char>,
    subscriber_id: SubscriberId,
    subscribed_at: i64,
    email_outcome: Result<(), FaultView>,
)
    requires
        store.wf(),
        !store.in_transaction,
        !has_subscriber(store.subscribers, subscriber_id),
        !has_token(store.tokens, subscription_token),
    ensures
        ({
            let (after, result) = subscription_run(
                store,
                subscriber,
                subscription_token,
                subscriber_id,
                subscribed_at,
                email_outcome,
            );
            &&& after.wf()
            &&& !after.in_transaction
            &&& after.subscribers == store.subscribers.push(
                pending_row(subscriber, subscriber_id, subscribed_at),
            )
            &&& after.tokens == store.tokens.push(
                TokenView { subscription_token, subscriber_id },
            )
            &&& after.lookup(subscription_token) == Some(subscriber_id)
            &&& result == (match email_outcome {
                Ok(()) => Ok::<(), SubscribeErrorView>(()),
                Err(fault) => Err::<(), SubscribeErrorView>(
                    SubscribeErrorView::SendEmailError(fault),
                ),
            })
        }),
{
    let row = pending_row(subscriber, subscriber_id, subscribed_at);
    let token = TokenView { subscription_token, subscriber_id };
    let begun = store.begin()->Ok_0;
    law_begin_keeps_well_formed(store);
    assert(begun.all_subscribers() =~= store.subscribers);
    assert(begun.all_tokens() =~= store.tokens);
    let inserted = begun.insert_subscriber(
        subscriber_id,
        subscriber.email,
        subscriber.name,
        subscribed_at,
    )->Ok_0;
    law_insert_subscriber_keeps_well_formed(
        begun,
        subscriber_id,
        subscriber.email,
        subscriber.name,
        subscribed_at,
    );
    assert(inserted.pending_subscribers =~= seq![row]);
    assert(inserted.all_tokens() =~= store.tokens);
    assert(inserted.all_subscribers() =~= store.subscribers.push(row));
    assert(inserted.all_subscribers()[store.subscribers.len() as int].id == subscriber_id);
    let stored = inserted.insert_token(subscription_token, subscriber_id)->Ok_0;
    law_insert_token_keeps_well_formed(inserted, subscription_token, subscriber_id);
    assert(stored.pending_tokens =~= seq![token]);
    let committed = stored.commit()->Ok_0;
    law_commit_keeps_all(stored);
    assert(committed.subscribers =~= store.subscribers.push(row));
    assert(committed.tokens =~= store.tokens.push(token));
    lemma_token_position(committed.tokens, subscription_token, 0);
    let at = token_position(committed.tokens, subscription_token, 0);
    assert(committed.tokens[store.tokens.len() as int].subscription_token == subscription_token);
    if at < store.tokens.len() {
        assert(store.tokens[at].subscription_token == subscription_token);
    }
}

/// When a subscription ends with a persistence failure, the committed rows
/// are the same as before it: neither the subscriber nor the token is kept.
pub proof fn law_failed_subscription_keeps_nothing(
    store: StoreView,
    subscriber: NewSubscriberView,
    subscription_token: Seq<char>,
    subscriber_id: SubscriberId,
    subscribed_at: i64,
    email_outcome: Result<(), FaultView>,
)
    requires
        ({
            let (after, result) = subscription_run(
                store,
                subscriber,
                subscription_token,
                subscriber_id,
                subscribed_at,
                email_outcome,
            );
            result is Err && result->Err_0.kind() == FailureKind::PersistenceFailed
        }),
    ensures
        ({
            let (after, result) = subscription_run(
                store,
                subscriber,
                subscription_token,
                subscriber_id,
                subscribed_at,
                email_outcome,
            );
            &&& after.subscribers == store.subscribers
            &&& after.tokens == store.tokens
        }),
{
}

/// The same address submitted twice gives two subscribers: the second
/// subscription is not turned down, and both rows are kept, each with the
/// address and each with its own identifier.
pub proof fn law_subscribing_twice_keeps_two_rows(
    store: StoreView,
    subscriber: NewSubscriberView,
    first_token: Seq<char>,
    first_id: SubscriberId,
    second_token: Seq<char>,
    second_id: SubscriberId,
    subscribed_at: i64,
)
    requires
        store.wf(),
        !store.in_transaction,
        !has_subscriber(store.subscribers, first_id),
        !has_subscriber(store.subscribers, second_id),
        !has_token(store.tokens, first_token),
        !has_token(store.tokens, second_token),
        first_id != second_id,
        first_token != second_token,
    ensures
        ({
            let (once, first) = subscription_run(
                store,
                subscriber,
                first_token,
                first_id,
                subscribed_at,
                Ok(()),
            );
            let (twice, second) = subscription_run(
                once,
                subscriber,
                second_token,
                second_id,
                subscribed_at,
                Ok(()),
            );
            let n = store.subscribers.len() as int;
            &&& first is Ok
            &&& second is Ok
            &&& twice.subscribers.len() == n + 2
            &&& twice.subscribers[n] == pending_row(subscriber, first_id, subscribed_at)
            &&& twice.subscribers[n + 1] == pending_row(subscriber, second_id, subscribed_at)
            &&& twice.subscribers[n].email == twice.subscribers[n + 1].email
            &&& twice.subscribers[n].id != twice.subscribers[n + 1].id
        }),
{
    law_subscription_keeps_one_of_each(
        store,
        subscriber,
        first_token,
        first_id,
        subscribed_at,
        Ok(()),
    );
    let once = subscription_run(store, subscriber, first_token, first_id, subscribed_at, Ok(())).0;
    lemma_has_subscriber_in_either(
        store.subscribers,
        seq![pending_row(subscriber, first_id, subscribed_at)],
        second_id,
    );
    lemma_has_token_in_either(
        store.tokens,
        seq![TokenView { subscription_token: first_token, subscriber_id: first_id }],
        second_token,
    );
    assert(once.subscribers =~= store.subscribers + seq![
        pending_row(subscriber, first_id, subscribed_at),
    ]);
    assert(once.tokens =~= store.tokens + seq![
        TokenView { subscription_token: first_token, subscriber_id: first_id },
    ]);
    law_subscription_keeps_one_of_each(
        once,
        subscriber,
        second_token,
        second_id,
        subscribed_at,
        Ok(()),
    );
}

/// The token of a new subscriber confirms that subscriber: a confirmation
/// with it succeeds and moves the row from pending to confirmed.
pub proof fn law_token_confirms_its_subscriber(
    store: StoreView,
    subscriber: NewSubscriberView,
    subscription_token: Seq<char>,
    subscriber_id: SubscriberId,
    subscribed_at: i64,
    email_outcome: Result<(), FaultView>,
)
    requires
        store.wf(),
        !store.in_transaction,
        !has_subscriber(store.subscribers, subscriber_id),
        !has_token(store.tokens, subscription_token),
        is_token(subscription_token),
    ensures
        ({
            let after = subscription_run(
                store,
                subscriber,
                subscription_token,
                subscriber_id,
                subscribed_at,
                email_outcome,
            ).0;
            let (confirmed, result) = confirmation_run(after, subscription_token);
            let n = store.subscribers.len() as int;
            &&& after.subscribers[n].status == SubscriptionStatus::PendingConfirmation
            &&& result is Ok
            &&& confirmed.subscribers[n] == (SubscriberView {
                status: SubscriptionStatus::Confirmed,
                ..pending_row(subscriber, subscriber_id, subscribed_at)
            })
        }),
{
    law_subscription_keeps_one_of_each(
        store,
        subscriber,
        subscription_token,
        subscriber_id,
        subscribed_at,
        email_outcome,
    );
}

/// What holds after a form was submitted to a store: a form that is not
/// valid is turned down and changes nothing; for a valid one, the store and
/// the result are those of a subscription with some well-formed token, some
/// identifier and some outcome of the e-mail.
pub open spec fn subscription_outcome(
    before: StoreView,
    form: FormView,
    subscribed_at: i64,
    after: StoreView,
    result: Result<(), SubscribeErrorView>,
) -> bool {
    match new_subscriber_spec(form) {
        Err(reason) => after == before && result == Err::<(), SubscribeErrorView>(
            SubscribeErrorView::ValidationError(reason),
        ),
        Ok(subscriber) => exists|
            subscription_token: Seq<char>,
            subscriber_id: SubscriberId,
            email_outcome: Result<(), FaultView>,
        |
            is_token(subscription_token) && #[trigger] subscription_led_to(
                before,
                subscriber,
                subscription_token,
                subscriber_id,
                subscribed_at,
                email_outcome,
                after,
                result,
            ),
    }
}

/// Whether a subscription got as far as the e-mail: it succeeded, or all
/// that failed was the e-mail.
pub open spec fn got_to_the_email(result: Result<(), SubscribeErrorView>) -> bool {
    match result {
        Ok(()) => true,
        Err(error) => error is SendEmailError,
    }
}

/// When a form was submitted to a well-formed store and the subscription got
/// as far as the e-mail, the store holds exactly one subscriber and one
/// token more than before: the subscriber has the name and the address of
/// the form and is pending confirmation, and the token is well formed and
/// bound to that subscriber.
pub proof fn law_subscribed_means_kept(
    before: StoreView,
    form: FormView,
    subscribed_at: i64,
    after: StoreView,
    result: Result<(), SubscribeErrorView>,
)
    requires
        before.wf(),
        subscription_outcome(before, form, subscribed_at, after, result),
        got_to_the_email(result),
    ensures
        after.wf(),
        after.subscribers.len() == before.subscribers.len() + 1,
        after.subscribers.drop_last() == before.subscribers,
        after.subscribers.last().email == form.email,
        after.subscribers.last().name == form.name,
        after.subscribers.last().status == SubscriptionStatus::PendingConfirmation,
        after.subscribers.last().subscribed_at == subscribed_at,
        after.tokens.len() == before.tokens.len() + 1,
        after.tokens.drop_last() == before.tokens,
        after.tokens.last().subscriber_id == after.subscribers.last().id,
        is_token(after.tokens.last().subscription_token),
        after.lookup(after.tokens.last().subscription_token) == Some(after.subscribers.last().id),
{
    let subscriber = new_subscriber_spec(form)->Ok_0;
    let (subscription_token, subscriber_id, email_outcome) = choose|
        subscription_token: Seq<char>,
        subscriber_id: SubscriberId,
        email_outcome: Result<(), FaultView>,
    |
        is_token(subscription_token) && #[trigger] subscription_led_to(
            before,
            subscriber,
            subscription_token,
            subscriber_id,
            subscribed_at,
            email_outcome,
            after,
            result,
        );
    let begun = before.begin()->Ok_0;
    assert(begun.all_subscribers() =~= before.subscribers);
    assert(begun.all_tokens() =~= before.tokens);
    let inserted = begun.insert_subscriber(
        subscriber_id,
        subscriber.email,
        subscriber.name,
        subscribed_at,
    )->Ok_0;
    assert(inserted.all_tokens() =~= before.tokens);
    law_subscription_keeps_one_of_each(
        before,
        subscriber,
        subscription_token,
        subscriber_id,
        subscribed_at,
        email_outcome,
    );
    let row = pending_row(subscriber, subscriber_id, subscribed_at);
    let token = TokenView { subscription_token, subscriber_id };
    assert(before.subscribers.push(row).drop_last() =~= before.subscribers);
    assert(before.tokens.push(token).drop_last() =~= before.tokens);
}

/// When a form was submitted to a store and the subscription ended before
/// the e-mail, because the form was not valid or because the store failed,
/// the committed subscribers and tokens are those from before.
pub proof fn law_not_subscribed_means_nothing_kept(
    before: StoreView,
    form: FormView,
    subscribed_at: i64,
    after: StoreView,
    result: Result<(), SubscribeErrorView>,
)
    requires
        subscription_outcome(before, form, subscribed_at, after, result),
        !got_to_the_email(result),
    ensures
        after.subscribers == before.subscribers,
        after.tokens == before.tokens,
        result->Err_0.kind() == FailureKind::ValidationFailed || result->Err_0.kind()
            == FailureKind::PersistenceFailed,
{
    if new_subscriber_spec(form) is Ok {
        let subscriber = new_subscriber_spec(form)->Ok_0;
        let (subscription_token, subscriber_id, email_outcome) = choose|
            subscription_token: Seq<char>,
            subscriber_id: SubscriberId,
            email_outcome: Result<(), FaultView>,
        |
            is_token(subscription_token) && #[trigger] subscription_led_to(
                before,
                subscriber,
                subscription_token,
                subscriber_id,
                subscribed_at,
                email_outcome,
                after,
                result,
            );
    }
}

/// A result of a subscription as plain text.
pub open spec fn subscribe_result_view(result: Result<(), SubscribeError>) -> Result<
    (),
    SubscribeErrorView,
> {
    match result {
        Ok(()) => Ok(()),
        Err(error) => Err(error@),
    }
}

/// What a subscription that is under way satisfies at every step: the store
/// is where the work done so far has brought it.
pub open spec fn subscribing(
    before: StoreView,
    now: StoreView,
    subscriber: NewSubscriberView,
    subscription_token: Seq<char>,
    subscriber_id: SubscriberId,
    base_url: Seq<char>,
    subscribed_at: i64,
    step: SubscribeStepView,
) -> bool {
    let begun = before.begin();
    let inserted = begun->Ok_0.insert_subscriber(
        subscriber_id,
        subscriber.email,
        subscriber.name,
        subscribed_at,
    );
    let stored = inserted->Ok_0.insert_token(subscription_token, subscriber_id);
    let committed = stored->Ok_0.commit();
    match step {
        SubscribeStepView::Next(subscription, action) => {
            &&& subscription.subscriber == subscriber
            &&& subscription.subscription_token == subscription_token
            &&& subscription.subscriber_id == subscriber_id
            &&& subscription.base_url == base_url
            &&& match subscription.stage {
                SubscribeStageView::Beginning => {
                    &&& action == SubscribeActionView::BeginTransaction
                    &&& now == before
                },
                SubscribeStageView::InsertingSubscriber => {
                    &&& action == (SubscribeActionView::InsertSubscriber {
                        subscriber_id,
                        email: subscriber.email,
                        name: subscriber.name,
                    })
                    &&& begun == Ok::<StoreView, StoreError>(now)
                },
                SubscribeStageView::StoringToken => {
                    &&& action == (SubscribeActionView::StoreToken {
                        subscription_token,
                        subscriber_id,
                    })
                    &&& begun is Ok
                    &&& inserted == Ok::<StoreView, StoreError>(now)
                },
                SubscribeStageView::Committing => {
                    &&& action == SubscribeActionView::Commit
                    &&& begun is Ok
                    &&& inserted is Ok
                    &&& stored == Ok::<StoreView, StoreError>(now)
                },
                SubscribeStageView::Sending => {
                    &&& action is SendEmail
                    &&& begun is Ok
                    &&& inserted is Ok
                    &&& stored is Ok
                    &&& committed == Ok::<StoreView, StoreError>(now)
                },
                SubscribeStageView::RollingBack(error) => {
                    &&& action == SubscribeActionView::Rollback
                    &&& forall|email_outcome: Result<(), FaultView>| #[trigger]
                        subscription_run(
                            before,
                            subscriber,
                            subscription_token,
                            subscriber_id,
                            subscribed_at,
                            email_outcome,
                        ) == (now.rollback(), Err::<(), SubscribeErrorView>(error))
                },
            }
        },
        SubscribeStepView::Done(result) => exists|email_outcome: Result<(), FaultView>| #[trigger]
            subscription_run(
                before,
                subscriber,
                subscription_token,
                subscriber_id,
                subscribed_at,
                email_outcome,
            ) == (now, result),
    }
}

/// The number of steps that a subscription has left, at most.
pub open spec fn subscribe_steps_left(step: SubscribeStepView) -> int {
    match step {
        SubscribeStepView::Done(_) => 0,
        SubscribeStepView::Next(subscription, _) => match subscription.stage {
            SubscribeStageView::Beginning => 5,
            SubscribeStageView::InsertingSubscriber => 4,
            SubscribeStageView::StoringToken => 3,
            SubscribeStageView::Committing => 2,
            SubscribeStageView::Sending => 1,
            SubscribeStageView::RollingBack(_) => 1,
        },
    }
}

/// Takes a submitted form and carries the subscription out on a store in
/// memory and through a transport. `subscribed_at` is the time that the
/// subscriber is kept with. Whether the e-mail is delivered is for the
/// transport to say; what is kept does not depend on it.
pub fn run_subscription<C: EmailClient>(
    store: &mut SubscriberStore,
    email_service: &EmailService,
    email_client: &C,
    base_url: &ApplicationBaseUrl,
    form: FormData,
    subscribed_at: i64,
) -> (result: Result<(), SubscribeError>)
    ensures
        subscription_outcome(
            old(store)@,
            form@,
            subscribed_at,
            final(store)@,
            subscribe_result_view(result),
        ),
{
    let ghost before = store@;
    let mut step = subscribe(form, base_url);
    let ghost subscriber: NewSubscriberView;
    let ghost subscription_token: Seq<char>;
    let ghost subscriber_id: SubscriberId;
    match &step {
        SubscribeStep::Done(_) => {
            proof {
                subscriber = arbitrary();
                subscription_token = arbitrary();
                subscriber_id = arbitrary();
            }
        },
        SubscribeStep::Next(subscription, _) => {
            proof {
                subscriber = subscription@.subscriber;
                subscription_token = subscription@.subscription_token;
                subscriber_id = subscription@.subscriber_id;
            }
        },
    }
    if let SubscribeStep::Done(result) = step {
        return result;
    }
    loop
        invariant
            before == old(store)@,
            new_subscriber_spec(form@) == Ok::<NewSubscriberView, Seq<char>>(subscriber),
            is_token(subscription_token),
            subscribing(
                before,
                store@,
                subscriber,
                subscription_token,
                subscriber_id,
                base_url@,
                subscribed_at,
                step@,
            ),
        decreases subscribe_steps_left(step@),
    {
        match step {
            SubscribeStep::Done(result) => {
                proof {
                    let email_outcome = choose|email_outcome: Result<(), FaultView>| #[trigger]
                        subscription_run(
                            before,
                            subscriber,
                            subscription_token,
                            subscriber_id,
                            subscribed_at,
                            email_outcome,
                        ) == (store@, subscribe_result_view(result));
                    assert(subscription_led_to(
                        before,
                        subscriber,
                        subscription_token,
                        subscriber_id,
                        subscribed_at,
                        email_outcome,
                        store@,
                        subscribe_result_view(result),
                    ));
                    assert(exists|
                        token: Seq<char>,
                        id: SubscriberId,
                        outcome: Result<(), FaultView>,
                    |
                        is_token(token) && #[trigger] subscription_led_to(
                            before,
                            subscriber,
                            token,
                            id,
                            subscribed_at,
                            outcome,
                            store@,
                            subscribe_result_view(result),
                        ));
                    assert(new_subscriber_spec(form@)->Ok_0 == subscriber);
                }
                return result;
            },
            SubscribeStep::Next(subscription, action) => {
                let reply = match action {
                    SubscribeAction::BeginTransaction => store_reply(store.begin()),
                    SubscribeAction::InsertSubscriber {
                        subscriber_id,
                        email,
                        name,
                    } => store_reply(
                        store.insert_subscriber(
                            subscriber_id,
                            email.as_str(),
                            name.as_str(),
                            subscribed_at,
                        ),
                    ),
                    SubscribeAction::StoreToken {
                        subscription_token,
                        subscriber_id,
                    } => store_reply(
                        store.insert_token(subscription_token.as_str(), subscriber_id),
                    ),
                    SubscribeAction::Commit => store_reply(store.commit()),
                    SubscribeAction::Rollback => {
                        store.rollback();
                        Ok(())
                    },
                    SubscribeAction::SendEmail(email) => match email_service.send_email(
                        email_client,
                        email.request(),
                    ) {
                        Ok(()) => Ok(()),
                        Err(error) => Err(error.into_fault()),
                    },
                };
                proof {
                    let next = subscription@.after(outcome_view(reply));
                    if subscription@.stage is Sending {
                        assert(subscription_run(
                            before,
                            subscriber,
                            subscription_token,
                            subscriber_id,
                            subscribed_at,
                            outcome_view(reply),
                        ) == (store@, next->Done_0));
                    }
                    if subscription@.stage is RollingBack {
                        assert(subscription_run(
                            before,
                            subscriber,
                            subscription_token,
                            subscriber_id,
                            subscribed_at,
                            Ok(()),
                        ) == (store@, next->Done_0));
                    }
                    if subscription@.stage is Beginning && reply is Err {
                        assert(subscription_run(
                            before,
                            subscriber,
                            subscription_token,
                            subscriber_id,
                            subscribed_at,
                            Ok(()),
                        ) == (store@, next->Done_0));
                    }
                }
                step = subscription.step(reply);
            },
        }
    }
}

} // verus!
