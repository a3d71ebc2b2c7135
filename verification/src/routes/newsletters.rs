//! Publishing an issue to every confirmed subscriber, one e-mail at a time.
//!
//! [`publish_newsletter`] starts a [`Publication`], which waits for the
//! e-mail addresses of the confirmed subscribers. Once they are
//! [listed](Publication::listed), each step either asks for one e-mail to be
//! sent, and then waits in a [`Dispatch`] for the outcome, or ends the
//! operation. The first delivery that fails ends it.

use crate::domain::email::is_valid_email;
use crate::domain::subscriber_email::{subscriber_email_error, SubscriberEmail};
use crate::email::email_client::{EmailView, OutgoingEmail};
use crate::error::{
    error_chain,
    error_chain_fmt,
    outcome_view,
    texts,
    FailureKind,
    Fault,
    FaultView,
};
use vstd::prelude::*;
use vstd::string::*;

verus! {

/// The two bodies of an issue.
#[derive(Debug)]
pub struct Content {
    pub html: String,
    pub text: String,
}

/// An issue of the newsletter, as it is submitted for publishing.
#[derive(Debug)]
pub struct BodyData {
    pub title: String,
    pub content: Content,
}

/// An issue as plain text.
pub struct IssueView {
    pub title: Seq<char>,
    pub html: Seq<char>,
    pub text: Seq<char>,
}

impl View for BodyData {
    type V = IssueView;

    open spec fn view(&self) -> IssueView {
        IssueView { title: self.title@, html: self.content.html@, text: self.content.text@ }
    }
}

/// Why an issue was not published to everyone.
pub enum PublishError {
    /// The confirmed subscribers could not be listed; no e-mail was sent.
    PersistenceFailed(Fault),
    /// The transport failed on one recipient; those after it got nothing.
    DispatchFailed(Fault),
}

/// A [`PublishError`] as plain text.
pub enum PublishErrorView {
    PersistenceFailed(FaultView),
    DispatchFailed(FaultView),
}

impl View for PublishError {
    type V = PublishErrorView;

    open spec fn view(&self) -> PublishErrorView {
        match self {
            PublishError::PersistenceFailed(fault) => PublishErrorView::PersistenceFailed(fault@),
            PublishError::DispatchFailed(fault) => PublishErrorView::DispatchFailed(fault@),
        }
    }
}

impl PublishErrorView {
    /// The fault behind the error.
    pub open spec fn fault(self) -> FaultView {
        match self {
            PublishErrorView::PersistenceFailed(fault) => fault,
            PublishErrorView::DispatchFailed(fault) => fault,
        }
    }

    /// The kind of failure that the error stands for.
    pub open spec fn kind(self) -> FailureKind {
        match self {
            PublishErrorView::PersistenceFailed(_) => FailureKind::PersistenceFailed,
            PublishErrorView::DispatchFailed(_) => FailureKind::DispatchFailed,
        }
    }
}

impl PublishError {
    /// The kind of failure that the error stands for.
    pub fn kind(&self) -> (kind: FailureKind)
        ensures
            kind == self@.kind(),
    {
        match self {
            PublishError::PersistenceFailed(_) => FailureKind::PersistenceFailed,
            PublishError::DispatchFailed(_) => FailureKind::DispatchFailed,
        }
    }

    /// The HTTP status of the error: a server error, whichever the kind.
    pub fn status_code(&self) -> (code: u16)
        ensures
            code == 500,
            code == self@.kind().status_code(),
    {
        self.kind().status_code()
    }

    /// The message of the error: that of the fault behind it.
    pub fn message(&self) -> (message: String)
        ensures
            message@ == self@.fault().message,
    {
        match self {
            PublishError::PersistenceFailed(fault) => fault.message.clone(),
            PublishError::DispatchFailed(fault) => fault.message.clone(),
        }
    }

    /// The error with all its causes, printed as a chain.
    pub fn chain_string(&self) -> (out: String)
        ensures
            out@ == error_chain(self@.fault().message, self@.fault().causes),
    {
        match self {
            PublishError::PersistenceFailed(fault) => error_chain_fmt(
                fault.message.as_str(),
                &fault.causes,
            ),
            PublishError::DispatchFailed(fault) => error_chain_fmt(
                fault.message.as_str(),
                &fault.causes,
            ),
        }
    }
}

/// A confirmed subscriber whose stored address is still a valid one.
#[derive(Debug)]
pub struct ConfirmedSubscriber {
    pub email: SubscriberEmail,
}

/// A stored address, validated again: the address itself if it is valid,
/// and the reason for skipping it if not.
pub open spec fn parse_row(row: Seq<char>) -> Result<Seq<char>, Seq<char>> {
    if is_valid_email(row) {
        Ok(row)
    } else {
        Err(subscriber_email_error(row))
    }
}

/// Every stored address validated again, in the order of the store.
pub open spec fn parse_rows(rows: Seq<Seq<char>>) -> Seq<Result<Seq<char>, Seq<char>>> {
    Seq::new(rows.len(), |i: int| parse_row(rows[i]))
}

/// A validated row as plain text.
pub open spec fn entry_view(entry: Result<ConfirmedSubscriber, String>) -> Result<
    Seq<char>,
    Seq<char>,
> {
    match entry {
        Ok(subscriber) => Ok(subscriber.email@),
        Err(reason) => Err(reason@),
    }
}

/// Validated rows as plain text.
pub open spec fn entries_view(queue: Seq<Result<ConfirmedSubscriber, String>>) -> Seq<
    Result<Seq<char>, Seq<char>>,
> {
    Seq::new(queue.len(), |i: int| entry_view(queue[i]))
}

/// Validates the stored addresses of the confirmed subscribers again: what
/// is in the store may have been changed since it was accepted.
pub fn get_confirmed_subscribers(rows: Vec<String>) -> (confirmed: Vec<
    Result<ConfirmedSubscriber, String>,
>)
    ensures
        entries_view(confirmed@) == parse_rows(texts(rows@)),
{
    let mut confirmed: Vec<Result<ConfirmedSubscriber, String>> = Vec::new();
    let mut i: usize = 0;
    while i < rows.len()
        invariant
            i <= rows.len(),
            confirmed.len() == i,
            forall|j: int| 0 <= j < i ==> entry_view(#[trigger] confirmed[j]) == parse_row(rows[j]@),
        decreases rows.len() - i,
    {
        let entry = match SubscriberEmail::parse(rows[i].clone()) {
            Ok(email) => Ok(ConfirmedSubscriber { email }),
            Err(reason) => Err(reason),
        };
        confirmed.push(entry);
        i = i + 1;
    }
    assert(entries_view(confirmed@) =~= parse_rows(texts(rows@)));
    confirmed
}

/// The e-mail that carries `issue` to `to`.
pub open spec fn issue_email(issue: IssueView, to: Seq<char>) -> EmailView {
    EmailView { to, subject: issue.title, html_content: issue.html, text_content: issue.text }
}

/// What a failed delivery to `to` is reported as.
pub open spec fn dispatch_failure(to: Seq<char>) -> Seq<char> {
    "Failed to send newsletter issue to "@ + to
}

/// The first position at or after `from` that holds a valid address, or the
/// number of entries if there is none.
pub open spec fn next_recipient(entries: Seq<Result<Seq<char>, Seq<char>>>, from: int) -> int
    decreases entries.len() - from,
{
    if from < 0 || from >= entries.len() {
        entries.len() as int
    } else if entries[from] is Ok {
        from
    } else {
        next_recipient(entries, from + 1)
    }
}

/// The reasons for skipping the entries from `from` up to `to`.
pub open spec fn warnings(entries: Seq<Result<Seq<char>, Seq<char>>>, from: int, to: int) -> Seq<
    Seq<char>,
> {
    Seq::new((to - from) as nat, |i: int| entries[from + i]->Err_0)
}

/// The valid addresses at or after `from`, in order.
pub open spec fn recipients_from(entries: Seq<Result<Seq<char>, Seq<char>>>, from: int) -> Seq<
    Seq<char>,
>
    decreases entries.len() - from,
{
    if from < 0 || from >= entries.len() {
        Seq::empty()
    } else if entries[from] is Ok {
        seq![entries[from]->Ok_0] + recipients_from(entries, from + 1)
    } else {
        recipients_from(entries, from + 1)
    }
}

/// The addresses that an issue goes to: the valid ones among the stored
/// addresses of the confirmed subscribers, in the order of the store.
pub open spec fn recipients(rows: Seq<Seq<char>>) -> Seq<Seq<char>> {
    recipients_from(parse_rows(rows), 0)
}

/// A publication that waits for the outcome of one delivery.
pub struct DispatchView {
    pub issue: IssueView,
    pub entries: Seq<Result<Seq<char>, Seq<char>>>,
    pub current: int,
}

/// What happens next in a publication.
pub enum PublishStepView {
    /// Send `email`, then report the outcome to `dispatch`. The rows in
    /// `skipped` were passed over on the way, each with its reason.
    Send { dispatch: DispatchView, email: EmailView, skipped: Seq<Seq<char>> },
    /// The publication is over.
    Done { result: Result<(), PublishErrorView>, skipped: Seq<Seq<char>> },
}

/// Moves on to the first valid address at or after `from`: an e-mail to it,
/// or the end of the publication, with success, if there is none.
pub open spec fn advance(
    issue: IssueView,
    entries: Seq<Result<Seq<char>, Seq<char>>>,
    from: int,
) -> PublishStepView {
    let k = next_recipient(entries, from);
    if k < entries.len() {
        PublishStepView::Send {
            dispatch: DispatchView { issue, entries, current: k },
            email: issue_email(issue, entries[k]->Ok_0),
            skipped: warnings(entries, from, k),
        }
    } else {
        PublishStepView::Done { result: Ok(()), skipped: warnings(entries, from, k) }
    }
}

/// The step that follows the store's answer: a failure to list ends the
/// publication before any e-mail; a list starts the deliveries.
pub open spec fn after_listing(
    issue: IssueView,
    reply: Result<Seq<Seq<char>>, FaultView>,
) -> PublishStepView {
    match reply {
        Ok(rows) => advance(issue, parse_rows(rows), 0),
        Err(fault) => PublishStepView::Done {
            result: Err(PublishErrorView::PersistenceFailed(fault)),
            skipped: Seq::empty(),
        },
    }
}

impl DispatchView {
    /// A dispatch always waits on a valid address.
    pub open spec fn wf(self) -> bool {
        &&& 0 <= self.current < self.entries.len()
        &&& self.entries[self.current] is Ok
    }

    /// The address whose delivery is awaited.
    pub open spec fn recipient(self) -> Seq<char> {
        self.entries[self.current]->Ok_0
    }

    /// The step that follows the outcome of the awaited delivery: after a
    /// success, the next valid address; after a failure, the end.
    pub open spec fn after_delivery(self, outcome: Result<(), FaultView>) -> PublishStepView {
        match outcome {
            Ok(()) => advance(self.issue, self.entries, self.current + 1),
            Err(fault) => PublishStepView::Done {
                result: Err(
                    PublishErrorView::DispatchFailed(
                        fault.context(dispatch_failure(self.recipient())),
                    ),
                ),
                skipped: Seq::empty(),
            },
        }
    }
}

/// The store's answer to the listing, as plain text.
pub open spec fn listing_view(reply: Result<Vec<String>, Fault>) -> Result<
    Seq<Seq<char>>,
    FaultView,
> {
    match reply {
        Ok(rows) => Ok(texts(rows@)),
        Err(fault) => Err(fault@),
    }
}

/// A publication that waits for the list of confirmed subscribers.
pub struct Publication {
    issue: BodyData,
}

impl View for Publication {
    type V = IssueView;

    closed spec fn view(&self) -> IssueView {
        self.issue@
    }
}

/// A publication that waits for the outcome of one delivery.
pub struct Dispatch {
    issue: BodyData,
    queue: Vec<Result<ConfirmedSubscriber, String>>,
    current: usize,
}

impl View for Dispatch {
    type V = DispatchView;

    closed spec fn view(&self) -> DispatchView {
        DispatchView {
            issue: self.issue@,
            entries: entries_view(self.queue@),
            current: self.current as int,
        }
    }
}

/// What happens next in a publication.
pub enum PublishStep {
    /// Send `email`, then report the outcome to `dispatch`. The rows in
    /// `skipped` were passed over on the way, each with its reason.
    Send { dispatch: Dispatch, email: OutgoingEmail, skipped: Vec<String> },
    /// The publication is over.
    Done { result: Result<(), PublishError>, skipped: Vec<String> },
}

impl View for PublishStep {
    type V = PublishStepView;

    open spec fn view(&self) -> PublishStepView {
        match self {
            PublishStep::Send { dispatch, email, skipped } => PublishStepView::Send {
                dispatch: dispatch@,
                email: email@,
                skipped: texts(skipped@),
            },
            PublishStep::Done { result, skipped } => PublishStepView::Done {
                result: match result {
                    Ok(()) => Ok(()),
                    Err(error) => Err(error@),
                },
                skipped: texts(skipped@),
            },
        }
    }
}

/// Where the next valid address is, and what lies before it.
pub proof fn lemma_next_recipient(entries: Seq<Result<Seq<char>, Seq<char>>>, from: int)
    requires
        0 <= from <= entries.len(),
    ensures
        from <= next_recipient(entries, from) <= entries.len(),
        next_recipient(entries, from) < entries.len() ==> entries[next_recipient(
            entries,
            from,
        )] is Ok,
        forall|j: int| from <= j < next_recipient(entries, from) ==> #[trigger] entries[j] is Err,
    decreases entries.len() - from,
{
    if from < entries.len() && !(entries[from] is Ok) {
        lemma_next_recipient(entries, from + 1);
    }
}

/// The valid addresses at or after `from` begin with the next one, if there is any.
pub proof fn lemma_recipients_step(entries: Seq<Result<Seq<char>, Seq<char>>>, from: int)
    requires
        0 <= from <= entries.len(),
    ensures
        next_recipient(entries, from) == entries.len() ==> recipients_from(entries, from)
            == Seq::<Seq<char>>::empty(),
        next_recipient(entries, from) < entries.len() ==> recipients_from(entries, from) == seq![
            entries[next_recipient(entries, from)]->Ok_0,
        ] + recipients_from(entries, next_recipient(entries, from) + 1),
    decreases entries.len() - from,
{
    if from < entries.len() && !(entries[from] is Ok) {
        lemma_recipients_step(entries, from + 1);
    }
}

/// The recipients are the stored addresses that are valid, and nothing
/// else: every one of them, once for each row that holds it, in the order
/// of the rows.
pub proof fn law_recipients_are_the_valid_rows(rows: Seq<Seq<char>>)
    ensures
        recipients(rows) == rows.filter(|row: Seq<char>| is_valid_email(row)),
{
    lemma_recipients_from(rows, 0);
    assert(rows.skip(0) =~= rows);
}

/// From any row on, the recipients are the valid addresses among the rest.
proof fn lemma_recipients_from(rows: Seq<Seq<char>>, from: int)
    requires
        0 <= from <= rows.len(),
    ensures
        recipients_from(parse_rows(rows), from) == rows.skip(from).filter(
            |row: Seq<char>| is_valid_email(row),
        ),
    decreases rows.len() - from,
{
    let valid = |row: Seq<char>| is_valid_email(row);
    let rest = rows.skip(from);
    if from == rows.len() {
        reveal(Seq::filter);
        assert(rest.filter(valid) =~= Seq::<Seq<char>>::empty());
    } else {
        lemma_recipients_from(rows, from + 1);
        let tail = rows.skip(from + 1);
        assert(rest =~= seq![rows[from]] + tail);
        tail.lemma_filter_prepend(rows[from], valid);
        assert(parse_rows(rows)[from] == parse_row(rows[from]));
        if is_valid_email(rows[from]) {
            assert(recipients_from(parse_rows(rows), from) =~= seq![rows[from]] + tail.filter(
                valid,
            ));
        } else {
            assert(recipients_from(parse_rows(rows), from) =~= Seq::<Seq<char>>::empty()
                + tail.filter(valid));
        }
    }
}

/// What a publication did, seen from outside: the e-mails it asked for, in
/// order, and how it ended (`None` while it still waits for an outcome).
pub struct PublishRun {
    pub attempts: Seq<EmailView>,
    pub result: Option<Result<(), PublishErrorView>>,
}

/// Carries a publication on from `step`, answering each request for an
/// e-mail with the next of `outcomes`, until it ends or the outcomes run out.
pub open spec fn run(step: PublishStepView, outcomes: Seq<Result<(), FaultView>>) -> PublishRun
    decreases outcomes.len(),
{
    match step {
        PublishStepView::Done { result, .. } => PublishRun {
            attempts: Seq::empty(),
            result: Some(result),
        },
        PublishStepView::Send { dispatch, email, .. } => {
            if outcomes.len() == 0 {
                PublishRun { attempts: seq![email], result: None }
            } else {
                let rest = run(dispatch.after_delivery(outcomes[0]), outcomes.drop_first());
                PublishRun { attempts: seq![email] + rest.attempts, result: rest.result }
            }
        },
    }
}

/// A whole publication of `issue`: the store answers the listing with
/// `reply`, and the transport answers the deliveries with `outcomes`, in turn.
pub open spec fn publish_run(
    issue: IssueView,
    reply: Result<Seq<Seq<char>>, FaultView>,
    outcomes: Seq<Result<(), FaultView>>,
) -> PublishRun {
    run(after_listing(issue, reply), outcomes)
}

/// The e-mails that carry `issue` to the first `n` of `to`.
pub open spec fn issue_emails(issue: IssueView, to: Seq<Seq<char>>, n: int) -> Seq<EmailView> {
    Seq::new(n as nat, |i: int| issue_email(issue, to[i]))
}

/// What a publication reports when the delivery to `to` failed with `fault`.
pub open spec fn dispatch_failed(to: Seq<char>, fault: FaultView) -> PublishErrorView {
    PublishErrorView::DispatchFailed(fault.context(dispatch_failure(to)))
}

/// How a publication ends when the first `n` deliveries succeed: with
/// success, if that is all of them, and else with the failure of the next.
proof fn lemma_run(
    issue: IssueView,
    entries: Seq<Result<Seq<char>, Seq<char>>>,
    from: int,
    outcomes: Seq<Result<(), FaultView>>,
    n: int,
)
    requires
        0 <= from <= entries.len(),
        0 <= n <= recipients_from(entries, from).len(),
        n <= outcomes.len(),
        forall|i: int| 0 <= i < n ==> #[trigger] outcomes[i] is Ok,
        n < recipients_from(entries, from).len() ==> n < outcomes.len() && outcomes[n] is Err,
    ensures
        n == recipients_from(entries, from).len() ==> {
            &&& run(advance(issue, entries, from), outcomes).attempts == issue_emails(
                issue,
                recipients_from(entries, from),
                n,
            )
            &&& run(advance(issue, entries, from), outcomes).result == Some(
                Ok::<(), PublishErrorView>(()),
            )
        },
        n < recipients_from(entries, from).len() ==> {
            &&& run(advance(issue, entries, from), outcomes).attempts == issue_emails(
                issue,
                recipients_from(entries, from),
                n + 1,
            )
            &&& run(advance(issue, entries, from), outcomes).result == Some(
                Err::<(), PublishErrorView>(
                    dispatch_failed(recipients_from(entries, from)[n], outcomes[n]->Err_0),
                ),
            )
        },
    decreases n,
{
    let to = recipients_from(entries, from);
    let k = next_recipient(entries, from);
    let step = advance(issue, entries, from);
    lemma_next_recipient(entries, from);
    lemma_recipients_step(entries, from);
    if k == entries.len() {
        assert(run(step, outcomes).attempts =~= issue_emails(issue, to, 0));
    } else {
        let rest_to = recipients_from(entries, k + 1);
        assert(to[0] == entries[k]->Ok_0);
        assert(forall|i: int| 0 <= i < rest_to.len() ==> rest_to[i] == to[i + 1]);
        if n == 0 {
            reveal_with_fuel(run, 2);
            assert(run(step, outcomes).attempts =~= issue_emails(issue, to, 1));
        } else {
            let rest = outcomes.drop_first();
            assert(outcomes[0] is Ok);
            assert(forall|i: int| 0 <= i < rest.len() ==> rest[i] == outcomes[i + 1]);
            assert forall|i: int| 0 <= i < n - 1 implies #[trigger] rest[i] is Ok by {
                assert(outcomes[i + 1] is Ok);
            }
            lemma_run(issue, entries, k + 1, rest, n - 1);
            if n == to.len() {
                assert(run(step, outcomes).attempts =~= issue_emails(issue, to, n));
            } else {
                assert(run(step, outcomes).attempts =~= issue_emails(issue, to, n + 1));
            }
        }
    }
}

/// When the store cannot list the confirmed subscribers, the publication
/// ends with a persistence failure and not one e-mail is asked for.
pub proof fn law_listing_failure_sends_nothing(
    issue: IssueView,
    fault: FaultView,
    outcomes: Seq<Result<(), FaultView>>,
)
    ensures
        publish_run(issue, Err(fault), outcomes).attempts == Seq::<EmailView>::empty(),
        publish_run(issue, Err(fault), outcomes).result == Some(
            Err::<(), PublishErrorView>(PublishErrorView::PersistenceFailed(fault)),
        ),
{
}

/// When no confirmed subscriber has a valid address, and so when there is no
/// confirmed subscriber at all, the publication succeeds without asking for
/// a single e-mail.
pub proof fn law_no_recipient_no_email(
    issue: IssueView,
    rows: Seq<Seq<char>>,
    outcomes: Seq<Result<(), FaultView>>,
)
    requires
        recipients(rows).len() == 0,
    ensures
        publish_run(issue, Ok(rows), outcomes).attempts == Seq::<EmailView>::empty(),
        publish_run(issue, Ok(rows), outcomes).result == Some(Ok::<(), PublishErrorView>(())),
{
    lemma_run(issue, parse_rows(rows), 0, outcomes, 0);
    assert(issue_emails(issue, recipients(rows), 0) =~= Seq::<EmailView>::empty());
}

/// When every delivery succeeds, each valid address among the confirmed
/// subscribers gets the issue exactly once, in the order of the store, rows
/// with an invalid address are passed over, and the publication succeeds.
pub proof fn law_every_recipient_gets_the_issue(
    issue: IssueView,
    rows: Seq<Seq<char>>,
    outcomes: Seq<Result<(), FaultView>>,
)
    requires
        recipients(rows).len() <= outcomes.len(),
        forall|i: int| 0 <= i < recipients(rows).len() ==> #[trigger] outcomes[i] is Ok,
    ensures
        publish_run(issue, Ok(rows), outcomes).attempts == issue_emails(
            issue,
            recipients(rows),
            recipients(rows).len() as int,
        ),
        publish_run(issue, Ok(rows), outcomes).result == Some(Ok::<(), PublishErrorView>(())),
{
    lemma_run(issue, parse_rows(rows), 0, outcomes, recipients(rows).len() as int);
}

/// When the transport fails on a recipient after delivering to the `n`
/// before it, the publication asks for exactly `n + 1` e-mails, to the first
/// `n + 1` recipients in order, of which the last is the one that failed; it
/// ends there with a dispatch failure, and the recipients after it get nothing.
pub proof fn law_first_failure_ends_publication(
    issue: IssueView,
    rows: Seq<Seq<char>>,
    outcomes: Seq<Result<(), FaultView>>,
    n: int,
)
    requires
        0 <= n < recipients(rows).len(),
        n < outcomes.len(),
        forall|i: int| 0 <= i < n ==> #[trigger] outcomes[i] is Ok,
        outcomes[n] is Err,
    ensures
        publish_run(issue, Ok(rows), outcomes).attempts == issue_emails(
            issue,
            recipients(rows),
            n + 1,
        ),
        publish_run(issue, Ok(rows), outcomes).result == Some(
            Err::<(), PublishErrorView>(dispatch_failed(recipients(rows)[n], outcomes[n]->Err_0)),
        ),
{
    lemma_run(issue, parse_rows(rows), 0, outcomes, n);
}

/// Moves on to the first valid address at or after `from`, and collects the
/// reasons for the rows that it passes over.
fn advance_exec(issue: BodyData, queue: Vec<Result<ConfirmedSubscriber, String>>, from: usize) -> (step:
    PublishStep)
    requires
        from <= queue.len(),
    ensures
        step@ == advance(issue@, entries_view(queue@), from as int),
{
    let ghost entries = entries_view(queue@);
    let mut skipped: Vec<String> = Vec::new();
    let mut k: usize = from;
    while k < queue.len()
        invariant
            from <= k <= queue.len(),
            entries == entries_view(queue@),
            next_recipient(entries, k as int) == next_recipient(entries, from as int),
            skipped.len() == k - from,
            texts(skipped@) == warnings(entries, from as int, k as int),
        decreases queue.len() - k,
    {
        proof {
            assert(entries[k as int] == entry_view(queue[k as int]));
        }
        match &queue[k] {
            Ok(subscriber) => {
                let email = OutgoingEmail {
                    to: subscriber.email.clone(),
                    subject: issue.title.clone(),
                    html_content: issue.content.html.clone(),
                    text_content: issue.content.text.clone(),
                };
                return PublishStep::Send {
                    dispatch: Dispatch { issue, queue, current: k },
                    email,
                    skipped,
                };
            },
            Err(reason) => {
                let ghost before = skipped@;
                skipped.push(reason.clone());
                proof {
                    assert forall|i: int| 0 <= i < k + 1 - from implies texts(skipped@)[i]
                        == warnings(entries, from as int, k + 1)[i] by {
                        if i < k - from {
                            assert(skipped@[i] == before[i]);
                            assert(texts(before)[i] == warnings(entries, from as int, k as int)[i]);
                        }
                    }
                    assert(texts(skipped@) =~= warnings(entries, from as int, k + 1));
                }
            },
        }
        k = k + 1;
    }
    PublishStep::Done { result: Ok(()), skipped }
}

/// Starts the publication of `body`. The caller now lists the stored e-mail
/// addresses of the confirmed subscribers and reports them with
/// [`Publication::listed`].
pub fn publish_newsletter(body: BodyData) -> (publication: Publication)
    ensures
        publication@ == body@,
{
    Publication { issue: body }
}

impl Publication {
    /// Takes the store's answer to the listing and says what happens next.
    pub fn listed(self, reply: Result<Vec<String>, Fault>) -> (step: PublishStep)
        ensures
            step@ == after_listing(self@, listing_view(reply)),
    {
        match reply {
            Ok(rows) => {
                let queue = get_confirmed_subscribers(rows);
                advance_exec(self.issue, queue, 0)
            },
            Err(fault) => {
                let skipped: Vec<String> = Vec::new();
                assert(texts(skipped@) =~= Seq::<Seq<char>>::empty());
                PublishStep::Done { result: Err(PublishError::PersistenceFailed(fault)), skipped }
            },
        }
    }
}

impl Dispatch {
    #[verifier::type_invariant]
    spec fn waits_on_a_recipient(self) -> bool {
        &&& self.current < self.queue.len()
        &&& self.queue[self.current as int] is Ok
    }

    /// Takes the outcome of the awaited delivery and says what happens next.
    pub fn delivered(self, outcome: Result<(), Fault>) -> (step: PublishStep)
        ensures
            self@.wf(),
            step@ == self@.after_delivery(outcome_view(outcome)),
    {
        proof {
            use_type_invariant(&self);
            assert(self@.entries[self.current as int] == entry_view(self.queue[self.current as int]));
        }
        match outcome {
            Ok(()) => {
                let from = self.current + 1;
                advance_exec(self.issue, self.queue, from)
            },
            Err(fault) => {
                let mut message = String::from_str("Failed to send newsletter issue to ");
                match &self.queue[self.current] {
                    Ok(subscriber) => {
                        message.append(subscriber.email.as_ref());
                    },
                    Err(_) => {},
                }
                let skipped: Vec<String> = Vec::new();
                assert(texts(skipped@) =~= Seq::<Seq<char>>::empty());
                PublishStep::Done {
                    result: Err(PublishError::DispatchFailed(fault.context(message))),
                    skipped,
                }
            },
        }
    }
}

} // verus!
