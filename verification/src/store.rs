//! The subscribers and their confirmation tokens, as they are kept.
//!
//! [`StoreView`] says what a store holds and what each operation does to it.
//! [`SubscriberStore`] keeps the same in memory.

use crate::error::Fault;
use vstd::prelude::*;
use vstd::string::*;

verus! {

/// The identifier of a subscriber: opaque, set when the subscriber is
/// created, never changed.
#[derive(Clone, Copy, Debug, PartialEq, Eq, Structural, Hash)]
pub struct SubscriberId(pub u128);

/// Where a subscriber stands. The only move is from pending to confirmed.
#[derive(Clone, Copy, Debug, PartialEq, Eq, Structural)]
pub enum SubscriptionStatus {
    PendingConfirmation,
    Confirmed,
}

impl SubscriptionStatus {
    /// The word that a store writes down for the status.
    pub fn as_str(&self) -> (s: &'static str)
        ensures
            s@ == (match self {
                SubscriptionStatus::PendingConfirmation => "pending_confirmation"@,
                SubscriptionStatus::Confirmed => "confirmed"@,
            }),
    {
        match self {
            SubscriptionStatus::PendingConfirmation => "pending_confirmation",
            SubscriptionStatus::Confirmed => "confirmed",
        }
    }
}

/// A subscriber, as kept.
#[derive(Debug)]
pub struct Subscriber {
    pub id: SubscriberId,
    pub email: String,
    pub name: String,
    pub status: SubscriptionStatus,
    pub subscribed_at: i64,
}

/// A [`Subscriber`] as plain text.
pub struct SubscriberView {
    pub id: SubscriberId,
    pub email: Seq<char>,
    pub name: Seq<char>,
    pub status: SubscriptionStatus,
    pub subscribed_at: i64,
}

impl View for Subscriber {
    type V = SubscriberView;

    open spec fn view(&self) -> SubscriberView {
        SubscriberView {
            id: self.id,
            email: self.email@,
            name: self.name@,
            status: self.status,
            subscribed_at: self.subscribed_at,
        }
    }
}

/// A confirmation token and the subscriber that it stands for, as kept.
#[derive(Debug)]
pub struct ConfirmationToken {
    pub subscription_token: String,
    pub subscriber_id: SubscriberId,
}

/// A [`ConfirmationToken`] as plain text.
pub struct TokenView {
    pub subscription_token: Seq<char>,
    pub subscriber_id: SubscriberId,
}

impl View for ConfirmationToken {
    type V = TokenView;

    open spec fn view(&self) -> TokenView {
        TokenView {
            subscription_token: self.subscription_token@,
            subscriber_id: self.subscriber_id,
        }
    }
}

/// Subscribers as plain text.
pub open spec fn subscribers_view(rows: Seq<Subscriber>) -> Seq<SubscriberView> {
    Seq::new(rows.len(), |i: int| rows[i]@)
}

/// Tokens as plain text.
pub open spec fn tokens_view(rows: Seq<ConfirmationToken>) -> Seq<TokenView> {
    Seq::new(rows.len(), |i: int| rows[i]@)
}

/// Whether a subscriber with this identifier is among `rows`.
pub open spec fn has_subscriber(rows: Seq<SubscriberView>, id: SubscriberId) -> bool {
    exists|i: int| 0 <= i < rows.len() && (#[trigger] rows[i]).id == id
}

/// Whether this token is among `rows`.
pub open spec fn has_token(rows: Seq<TokenView>, subscription_token: Seq<char>) -> bool {
    exists|i: int|
        0 <= i < rows.len() && (#[trigger] rows[i]).subscription_token == subscription_token
}

/// The position of the first row at or after `from` that holds this token,
/// or the number of rows if none does.
pub open spec fn token_position(
    rows: Seq<TokenView>,
    subscription_token: Seq<char>,
    from: int,
) -> int
    decreases rows.len() - from,
{
    if from < 0 || from >= rows.len() {
        rows.len() as int
    } else if rows[from].subscription_token == subscription_token {
        from
    } else {
        token_position(rows, subscription_token, from + 1)
    }
}

/// The row with its status set to confirmed, if it is the row of `id`.
pub open spec fn confirmed_row(row: SubscriberView, id: SubscriberId) -> SubscriberView {
    if row.id == id {
        SubscriberView { status: SubscriptionStatus::Confirmed, ..row }
    } else {
        row
    }
}

/// The identifiers and addresses of the confirmed subscribers at or after
/// `from`, in the order of the rows.
pub open spec fn confirmed_from(rows: Seq<SubscriberView>, from: int) -> Seq<
    (SubscriberId, Seq<char>),
>
    decreases rows.len() - from,
{
    if from < 0 || from >= rows.len() {
        Seq::empty()
    } else if rows[from].status == SubscriptionStatus::Confirmed {
        seq![(rows[from].id, rows[from].email)] + confirmed_from(rows, from + 1)
    } else {
        confirmed_from(rows, from + 1)
    }
}

/// Why the store turned an operation down.
#[derive(Clone, Copy, Debug, PartialEq, Eq, Structural)]
pub enum StoreError {
    /// A transaction is open already.
    TransactionOpen,
    /// No transaction is open.
    NoTransaction,
    /// A subscriber with this identifier exists.
    DuplicateSubscriber,
    /// This token exists.
    DuplicateToken,
    /// The token is to be bound to a subscriber that does not exist.
    UnknownSubscriber,
}

impl StoreError {
    /// The message of the error.
    pub open spec fn spec_message(self) -> Seq<char> {
        match self {
            StoreError::TransactionOpen => "a transaction is already open"@,
            StoreError::NoTransaction => "no transaction is open"@,
            StoreError::DuplicateSubscriber => "duplicate subscriber id"@,
            StoreError::DuplicateToken => "duplicate subscription token"@,
            StoreError::UnknownSubscriber => "the token refers to an unknown subscriber"@,
        }
    }

    /// The error as a fault, for whoever reports it further.
    pub fn into_fault(self) -> (fault: Fault)
        ensures
            fault@.message == self.spec_message(),
            fault@.causes == Seq::<Seq<char>>::empty(),
    {
        let message = match self {
            StoreError::TransactionOpen => "a transaction is already open",
            StoreError::NoTransaction => "no transaction is open",
            StoreError::DuplicateSubscriber => "duplicate subscriber id",
            StoreError::DuplicateToken => "duplicate subscription token",
            StoreError::UnknownSubscriber => "the token refers to an unknown subscriber",
        };
        Fault::new(String::from_str(message))
    }
}

/// What a store holds: the rows that are committed, and the rows of the
/// open transaction, if one is open.
pub struct StoreView {
    pub subscribers: Seq<SubscriberView>,
    pub tokens: Seq<TokenView>,
    pub in_transaction: bool,
    pub pending_subscribers: Seq<SubscriberView>,
    pub pending_tokens: Seq<TokenView>,
}

impl StoreView {
    /// The store that holds nothing.
    pub open spec fn empty() -> StoreView {
        StoreView {
            subscribers: Seq::empty(),
            tokens: Seq::empty(),
            in_transaction: false,
            pending_subscribers: Seq::empty(),
            pending_tokens: Seq::empty(),
        }
    }

    /// The committed subscribers, then those of the open transaction.
    pub open spec fn all_subscribers(self) -> Seq<SubscriberView> {
        self.subscribers + self.pending_subscribers
    }

    /// The committed tokens, then those of the open transaction.
    pub open spec fn all_tokens(self) -> Seq<TokenView> {
        self.tokens + self.pending_tokens
    }

    /// What every store that is reached through the operations satisfies:
    /// no identifier and no token occurs twice, every token is bound to a
    /// subscriber that exists, committed tokens to committed subscribers,
    /// and rows are pending only while a transaction is open.
    pub open spec fn wf(self) -> bool {
        &&& !self.in_transaction ==> self.pending_subscribers.len() == 0
            && self.pending_tokens.len() == 0
        &&& forall|i: int, j: int|
            0 <= i < j < self.all_subscribers().len() ==> (#[trigger] self.all_subscribers()[i]).id
                != (#[trigger] self.all_subscribers()[j]).id
        &&& forall|i: int, j: int|
            0 <= i < j < self.all_tokens().len() ==> (
            #[trigger] self.all_tokens()[i]).subscription_token
                != (#[trigger] self.all_tokens()[j]).subscription_token
        &&& forall|i: int|
            0 <= i < self.tokens.len() ==> has_subscriber(
                self.subscribers,
                (#[trigger] self.tokens[i]).subscriber_id,
            )
        &&& forall|i: int|
            0 <= i < self.all_tokens().len() ==> has_subscriber(
                self.all_subscribers(),
                (#[trigger] self.all_tokens()[i]).subscriber_id,
            )
    }

    /// Opens a transaction, unless one is open.
    pub open spec fn begin(self) -> Result<StoreView, StoreError> {
        if self.in_transaction {
            Err(StoreError::TransactionOpen)
        } else {
            Ok(StoreView { in_transaction: true, ..self })
        }
    }

    /// Adds a subscriber to the open transaction, pending confirmation. An
    /// identifier that exists is turned down; an address that exists is not.
    pub open spec fn insert_subscriber(
        self,
        id: SubscriberId,
        email: Seq<char>,
        name: Seq<char>,
        subscribed_at: i64,
    ) -> Result<StoreView, StoreError> {
        if !self.in_transaction {
            Err(StoreError::NoTransaction)
        } else if has_subscriber(self.all_subscribers(), id) {
            Err(StoreError::DuplicateSubscriber)
        } else {
            Ok(
                StoreView {
                    pending_subscribers: self.pending_subscribers.push(
                        SubscriberView {
                            id,
                            email,
                            name,
                            status: SubscriptionStatus::PendingConfirmation,
                            subscribed_at,
                        },
                    ),
                    ..self
                },
            )
        }
    }

    /// Adds a token to the open transaction and binds it to a subscriber. A
    /// subscriber may have any number of tokens.
    pub open spec fn insert_token(
        self,
        subscription_token: Seq<char>,
        subscriber_id: SubscriberId,
    ) -> Result<StoreView, StoreError> {
        if !self.in_transaction {
            Err(StoreError::NoTransaction)
        } else if has_token(self.all_tokens(), subscription_token) {
            Err(StoreError::DuplicateToken)
        } else if !has_subscriber(self.all_subscribers(), subscriber_id) {
            Err(StoreError::UnknownSubscriber)
        } else {
            Ok(
                StoreView {
                    pending_tokens: self.pending_tokens.push(
                        TokenView { subscription_token, subscriber_id },
                    ),
                    ..self
                },
            )
        }
    }

    /// Commits the open transaction: all of its rows are kept, at once.
    pub open spec fn commit(self) -> Result<StoreView, StoreError> {
        if !self.in_transaction {
            Err(StoreError::NoTransaction)
        } else {
            Ok(
                StoreView {
                    subscribers: self.all_subscribers(),
                    tokens: self.all_tokens(),
                    in_transaction: false,
                    pending_subscribers: Seq::empty(),
                    pending_tokens: Seq::empty(),
                },
            )
        }
    }

    /// Rolls the open transaction back: none of its rows is kept.
    pub open spec fn rollback(self) -> StoreView {
        StoreView {
            in_transaction: false,
            pending_subscribers: Seq::empty(),
            pending_tokens: Seq::empty(),
            ..self
        }
    }

    /// The subscriber that a committed token is bound to.
    pub open spec fn lookup(self, subscription_token: Seq<char>) -> Option<SubscriberId> {
        let at = token_position(self.tokens, subscription_token, 0);
        if at < self.tokens.len() {
            Some(self.tokens[at].subscriber_id)
        } else {
            None
        }
    }

    /// Marks the committed subscriber with this identifier as confirmed.
    pub open spec fn confirm(self, id: SubscriberId) -> StoreView {
        StoreView {
            subscribers: Seq::new(
                self.subscribers.len(),
                |i: int| confirmed_row(self.subscribers[i], id),
            ),
            ..self
        }
    }

    /// The identifiers and addresses of the committed subscribers that are
    /// confirmed, in the order in which they were kept.
    pub open spec fn confirmed(self) -> Seq<(SubscriberId, Seq<char>)> {
        confirmed_from(self.subscribers, 0)
    }
}

/// Whether the store did what `outcome` says: on success it is in the new
/// state, on failure it reports the error and is as it was.
pub open spec fn applied(
    before: StoreView,
    outcome: Result<StoreView, StoreError>,
    after: StoreView,
    reply: Result<(), StoreError>,
) -> bool {
    match outcome {
        Ok(next) => after == next && reply is Ok,
        Err(error) => after == before && reply == Err::<(), StoreError>(error),
    }
}

/// The store that holds nothing is well formed.
pub proof fn law_empty_store_is_well_formed()
    ensures
        StoreView::empty().wf(),
{
}

/// Opening a transaction keeps a store well formed and changes no row.
pub proof fn law_begin_keeps_well_formed(store: StoreView)
    requires
        store.wf(),
        store.begin() is Ok,
    ensures
        store.begin()->Ok_0.wf(),
        store.begin()->Ok_0.subscribers == store.subscribers,
        store.begin()->Ok_0.tokens == store.tokens,
{
    let next = store.begin()->Ok_0;
    assert(next.all_subscribers() =~= store.all_subscribers());
    assert(next.all_tokens() =~= store.all_tokens());
}

/// Adding a subscriber keeps a store well formed, leaves the committed rows
/// alone, and the row that is added is pending confirmation.
pub proof fn law_insert_subscriber_keeps_well_formed(
    store: StoreView,
    id: SubscriberId,
    email: Seq<char>,
    name: Seq<char>,
    subscribed_at: i64,
)
    requires
        store.wf(),
        store.insert_subscriber(id, email, name, subscribed_at) is Ok,
    ensures
        store.insert_subscriber(id, email, name, subscribed_at)->Ok_0.wf(),
        store.insert_subscriber(id, email, name, subscribed_at)->Ok_0.subscribers
            == store.subscribers,
        store.insert_subscriber(id, email, name, subscribed_at)->Ok_0.tokens == store.tokens,
        store.insert_subscriber(id, email, name, subscribed_at)->Ok_0.pending_subscribers.last()
            == (SubscriberView {
            id,
            email,
            name,
            status: SubscriptionStatus::PendingConfirmation,
            subscribed_at,
        }),
{
    let next = store.insert_subscriber(id, email, name, subscribed_at)->Ok_0;
    let before = store.all_subscribers();
    let after = next.all_subscribers();
    assert(after =~= before.push(next.pending_subscribers.last()));
    assert(next.all_tokens() =~= store.all_tokens());
    assert forall|i: int, j: int| 0 <= i < j < after.len() implies (#[trigger] after[i]).id != (
    #[trigger] after[j]).id by {
        if j < before.len() {
            assert(before[i].id != before[j].id);
        } else {
            assert(before[i].id != id);
        }
    }
    assert forall|i: int| 0 <= i < next.all_tokens().len() implies has_subscriber(
        after,
        (#[trigger] next.all_tokens()[i]).subscriber_id,
    ) by {
        let wanted = store.all_tokens()[i].subscriber_id;
        assert(has_subscriber(before, wanted));
        let k = choose|k: int| 0 <= k < before.len() && (#[trigger] before[k]).id == wanted;
        assert(after[k].id == wanted);
    }
}

/// Adding a token keeps a store well formed and leaves the committed rows alone.
pub proof fn law_insert_token_keeps_well_formed(
    store: StoreView,
    subscription_token: Seq<char>,
    subscriber_id: SubscriberId,
)
    requires
        store.wf(),
        store.insert_token(subscription_token, subscriber_id) is Ok,
    ensures
        store.insert_token(subscription_token, subscriber_id)->Ok_0.wf(),
        store.insert_token(subscription_token, subscriber_id)->Ok_0.subscribers
            == store.subscribers,
        store.insert_token(subscription_token, subscriber_id)->Ok_0.tokens == store.tokens,
{
    let next = store.insert_token(subscription_token, subscriber_id)->Ok_0;
    let before = store.all_tokens();
    let after = next.all_tokens();
    assert(after =~= before.push(TokenView { subscription_token, subscriber_id }));
    assert(next.all_subscribers() =~= store.all_subscribers());
    assert forall|i: int, j: int| 0 <= i < j < after.len() implies (
    #[trigger] after[i]).subscription_token != (#[trigger] after[j]).subscription_token by {
        if j < before.len() {
            assert(before[i].subscription_token != before[j].subscription_token);
        } else {
            assert(before[i].subscription_token != subscription_token);
        }
    }
    assert forall|i: int| 0 <= i < after.len() implies has_subscriber(
        next.all_subscribers(),
        (#[trigger] after[i]).subscriber_id,
    ) by {
        if i < before.len() {
            assert(has_subscriber(store.all_subscribers(), before[i].subscriber_id));
        }
    }
}

/// Committing keeps a store well formed and is all or nothing: every row of
/// the transaction is kept, after the rows that were there, and none is
/// left pending.
pub proof fn law_commit_keeps_all(store: StoreView)
    requires
        store.wf(),
        store.commit() is Ok,
    ensures
        store.commit()->Ok_0.wf(),
        store.commit()->Ok_0.subscribers == store.subscribers + store.pending_subscribers,
        store.commit()->Ok_0.tokens == store.tokens + store.pending_tokens,
        !store.commit()->Ok_0.in_transaction,
{
    let next = store.commit()->Ok_0;
    assert(next.all_subscribers() =~= store.all_subscribers());
    assert(next.all_tokens() =~= store.all_tokens());
    assert forall|i: int| 0 <= i < next.tokens.len() implies has_subscriber(
        next.subscribers,
        (#[trigger] next.tokens[i]).subscriber_id,
    ) by {
        assert(has_subscriber(store.all_subscribers(), store.all_tokens()[i].subscriber_id));
    }
}

/// Rolling back keeps a store well formed and is all or nothing: the
/// committed rows are as they were, and no row of the transaction is kept.
pub proof fn law_rollback_keeps_none(store: StoreView)
    requires
        store.wf(),
    ensures
        store.rollback().wf(),
        store.rollback().subscribers == store.subscribers,
        store.rollback().tokens == store.tokens,
        !store.rollback().in_transaction,
{
    let next = store.rollback();
    assert(next.all_subscribers() =~= store.subscribers);
    assert(next.all_tokens() =~= store.tokens);
    assert forall|i: int, j: int| 0 <= i < j < next.all_subscribers().len() implies (
    #[trigger] next.all_subscribers()[i]).id != (#[trigger] next.all_subscribers()[j]).id by {
        assert(store.all_subscribers()[i].id != store.all_subscribers()[j].id);
    }
    assert forall|i: int, j: int| 0 <= i < j < next.all_tokens().len() implies (
    #[trigger] next.all_tokens()[i]).subscription_token != (
    #[trigger] next.all_tokens()[j]).subscription_token by {
        assert(store.all_tokens()[i].subscription_token != store.all_tokens()[j].subscription_token);
    }
}

/// Confirming keeps a store well formed. It touches the status of the
/// subscriber with the identifier and nothing else: every row keeps its
/// place, its identifier, its address and its name, and the tokens stay.
pub proof fn law_confirm_touches_one_status(store: StoreView, id: SubscriberId)
    requires
        store.wf(),
    ensures
        store.confirm(id).wf(),
        store.confirm(id).tokens == store.tokens,
        store.confirm(id).subscribers.len() == store.subscribers.len(),
        forall|i: int|
            0 <= i < store.subscribers.len() ==> (#[trigger] store.confirm(id).subscribers[i])
                == confirmed_row(store.subscribers[i], id),
{
    let next = store.confirm(id);
    let before = store.all_subscribers();
    let after = next.all_subscribers();
    assert(next.all_tokens() =~= store.all_tokens());
    assert forall|i: int| 0 <= i < after.len() implies (#[trigger] after[i]).id == before[i].id by {
    }
    assert forall|i: int, j: int| 0 <= i < j < after.len() implies (#[trigger] after[i]).id != (
    #[trigger] after[j]).id by {
        assert(before[i].id != before[j].id);
    }
    assert forall|i: int| 0 <= i < next.tokens.len() implies has_subscriber(
        next.subscribers,
        (#[trigger] next.tokens[i]).subscriber_id,
    ) by {
        let wanted = store.tokens[i].subscriber_id;
        assert(has_subscriber(store.subscribers, wanted));
        let k = choose|k: int|
            0 <= k < store.subscribers.len() && (#[trigger] store.subscribers[k]).id == wanted;
        assert(next.subscribers[k].id == wanted);
    }
    assert forall|i: int| 0 <= i < next.all_tokens().len() implies has_subscriber(
        after,
        (#[trigger] next.all_tokens()[i]).subscriber_id,
    ) by {
        let wanted = store.all_tokens()[i].subscriber_id;
        assert(has_subscriber(before, wanted));
        let k = choose|k: int| 0 <= k < before.len() && (#[trigger] before[k]).id == wanted;
        assert(after[k].id == wanted);
    }
}

/// Confirming a subscriber a second time changes nothing.
pub proof fn law_confirm_is_idempotent(store: StoreView, id: SubscriberId)
    ensures
        store.confirm(id).confirm(id) == store.confirm(id),
{
    assert(store.confirm(id).confirm(id).subscribers =~= store.confirm(id).subscribers);
}

/// The status moves one way only: a subscriber that is confirmed stays
/// confirmed, whoever is confirmed after it.
pub proof fn law_confirmed_stays_confirmed(store: StoreView, id: SubscriberId, i: int)
    requires
        0 <= i < store.subscribers.len(),
        store.subscribers[i].status == SubscriptionStatus::Confirmed,
    ensures
        store.confirm(id).subscribers[i].status == SubscriptionStatus::Confirmed,
{
}

/// After a subscriber is confirmed, its row says so.
pub proof fn law_confirm_sets_the_status(store: StoreView, id: SubscriberId, i: int)
    requires
        0 <= i < store.subscribers.len(),
        store.subscribers[i].id == id,
    ensures
        store.confirm(id).subscribers[i].status == SubscriptionStatus::Confirmed,
{
}

/// The store does not look at addresses when it adds a subscriber: the same
/// address under two identifiers gives two rows.
pub proof fn law_same_address_is_kept_twice(
    store: StoreView,
    first: SubscriberId,
    second: SubscriberId,
    email: Seq<char>,
    name: Seq<char>,
    subscribed_at: i64,
)
    requires
        store.in_transaction,
        !has_subscriber(store.all_subscribers(), first),
        !has_subscriber(store.all_subscribers(), second),
        first != second,
    ensures
        store.insert_subscriber(first, email, name, subscribed_at) is Ok,
        store.insert_subscriber(first, email, name, subscribed_at)->Ok_0.insert_subscriber(
            second,
            email,
            name,
            subscribed_at,
        ) is Ok,
        ({
            let once = store.insert_subscriber(first, email, name, subscribed_at)->Ok_0;
            let twice = once.insert_subscriber(second, email, name, subscribed_at)->Ok_0;
            let n = store.pending_subscribers.len() as int;
            &&& twice.pending_subscribers.len() == n + 2
            &&& twice.pending_subscribers[n].email == email
            &&& twice.pending_subscribers[n + 1].email == email
            &&& twice.pending_subscribers[n].id == first
            &&& twice.pending_subscribers[n + 1].id == second
        }),
{
    let once = store.insert_subscriber(first, email, name, subscribed_at)->Ok_0;
    let all = once.all_subscribers();
    if has_subscriber(all, second) {
        let k = choose|k: int| 0 <= k < all.len() && (#[trigger] all[k]).id == second;
        if k < store.all_subscribers().len() {
            assert(store.all_subscribers()[k].id == second);
        }
    }
}

/// Whether one of the rows from `from` on is the confirmed subscriber `id`
/// with the address `email`.
pub open spec fn has_confirmed(
    rows: Seq<SubscriberView>,
    from: int,
    id: SubscriberId,
    email: Seq<char>,
) -> bool {
    exists|i: int|
        from <= i < rows.len() && (#[trigger] rows[i]).status == SubscriptionStatus::Confirmed
            && rows[i].id == id && rows[i].email == email
}

/// From any row on, the subscribers listed are those whose row says that
/// they are confirmed.
proof fn lemma_confirmed_from(
    rows: Seq<SubscriberView>,
    from: int,
    id: SubscriberId,
    email: Seq<char>,
)
    requires
        0 <= from <= rows.len(),
    ensures
        confirmed_from(rows, from).contains((id, email)) == has_confirmed(rows, from, id, email),
    decreases rows.len() - from,
{
    let listed = confirmed_from(rows, from);
    if from < rows.len() {
        lemma_confirmed_from(rows, from + 1, id, email);
        let rest = confirmed_from(rows, from + 1);
        let confirmed = rows[from].status == SubscriptionStatus::Confirmed;
        if listed.contains((id, email)) {
            let n = choose|n: int| 0 <= n < listed.len() && listed[n] == (id, email);
            if confirmed && n > 0 {
                assert(rest[n - 1] == (id, email));
            } else if !confirmed {
                assert(rest[n] == (id, email));
            }
            if rest.contains((id, email)) {
                let i = choose|i: int|
                    from + 1 <= i < rows.len() && (#[trigger] rows[i]).status
                        == SubscriptionStatus::Confirmed && rows[i].id == id && rows[i].email
                        == email;
                assert(rows[i].status == SubscriptionStatus::Confirmed);
            } else {
                assert(rows[from].status == SubscriptionStatus::Confirmed);
            }
        }
        if has_confirmed(rows, from, id, email) {
            let i = choose|i: int|
                from <= i < rows.len() && (#[trigger] rows[i]).status
                    == SubscriptionStatus::Confirmed && rows[i].id == id && rows[i].email == email;
            if i == from {
                assert(listed[0] == (id, email));
            } else {
                assert(rows[i].status == SubscriptionStatus::Confirmed);
                assert(has_confirmed(rows, from + 1, id, email));
                let n = choose|n: int| 0 <= n < rest.len() && rest[n] == (id, email);
                if confirmed {
                    assert(listed[n + 1] == (id, email));
                } else {
                    assert(listed[n] == (id, email));
                }
            }
        }
    }
}

/// The subscribers that are listed as confirmed are those whose row says
/// so, and no others: a subscriber that is pending is not listed.
pub proof fn law_only_confirmed_are_listed(store: StoreView, id: SubscriberId, email: Seq<char>)
    ensures
        store.confirmed().contains((id, email)) == has_confirmed(store.subscribers, 0, id, email),
{
    lemma_confirmed_from(store.subscribers, 0, id, email);
}

/// Identifiers and addresses as plain text.
pub open spec fn pairs_view(rows: Seq<(SubscriberId, String)>) -> Seq<(SubscriberId, Seq<char>)> {
    Seq::new(rows.len(), |i: int| (rows[i].0, rows[i].1@))
}

/// A subscriber is among two runs of rows when it is in one of them.
pub proof fn lemma_has_subscriber_in_either(
    first: Seq<SubscriberView>,
    second: Seq<SubscriberView>,
    id: SubscriberId,
)
    ensures
        has_subscriber(first + second, id) == (has_subscriber(first, id) || has_subscriber(
            second,
            id,
        )),
{
    let both = first + second;
    if has_subscriber(first, id) {
        let i = choose|i: int| 0 <= i < first.len() && (#[trigger] first[i]).id == id;
        assert(both[i].id == id);
    }
    if has_subscriber(second, id) {
        let i = choose|i: int| 0 <= i < second.len() && (#[trigger] second[i]).id == id;
        assert(both[first.len() + i].id == id);
    }
    if has_subscriber(both, id) {
        let i = choose|i: int| 0 <= i < both.len() && (#[trigger] both[i]).id == id;
        if i < first.len() {
            assert(first[i].id == id);
        } else {
            assert(second[i - first.len()].id == id);
        }
    }
}

/// A token is among two runs of rows when it is in one of them.
pub proof fn lemma_has_token_in_either(
    first: Seq<TokenView>,
    second: Seq<TokenView>,
    subscription_token: Seq<char>,
)
    ensures
        has_token(first + second, subscription_token) == (has_token(first, subscription_token)
            || has_token(second, subscription_token)),
{
    let both = first + second;
    if has_token(first, subscription_token) {
        let i = choose|i: int|
            0 <= i < first.len() && (#[trigger] first[i]).subscription_token == subscription_token;
        assert(both[i].subscription_token == subscription_token);
    }
    if has_token(second, subscription_token) {
        let i = choose|i: int|
            0 <= i < second.len() && (#[trigger] second[i]).subscription_token
                == subscription_token;
        assert(both[first.len() + i].subscription_token == subscription_token);
    }
    if has_token(both, subscription_token) {
        let i = choose|i: int|
            0 <= i < both.len() && (#[trigger] both[i]).subscription_token == subscription_token;
        if i < first.len() {
            assert(first[i].subscription_token == subscription_token);
        } else {
            assert(second[i - first.len()].subscription_token == subscription_token);
        }
    }
}

/// Where a token is first found, and that it is not found before.
pub proof fn lemma_token_position(rows: Seq<TokenView>, subscription_token: Seq<char>, from: int)
    requires
        0 <= from <= rows.len(),
    ensures
        from <= token_position(rows, subscription_token, from) <= rows.len(),
        token_position(rows, subscription_token, from) < rows.len() ==> rows[token_position(
            rows,
            subscription_token,
            from,
        )].subscription_token == subscription_token,
        forall|i: int|
            from <= i < token_position(rows, subscription_token, from) ==> (
            #[trigger] rows[i]).subscription_token != subscription_token,
    decreases rows.len() - from,
{
    if from < rows.len() && rows[from].subscription_token != subscription_token {
        lemma_token_position(rows, subscription_token, from + 1);
    }
}

/// Whether a subscriber with this identifier is among `rows`.
fn contains_subscriber(rows: &Vec<Subscriber>, id: SubscriberId) -> (found: bool)
    ensures
        found == has_subscriber(subscribers_view(rows@), id),
{
    let mut i: usize = 0;
    while i < rows.len()
        invariant
            i <= rows.len(),
            forall|j: int| 0 <= j < i ==> (#[trigger] subscribers_view(rows@)[j]).id != id,
        decreases rows.len() - i,
    {
        if rows[i].id == id {
            assert(subscribers_view(rows@)[i as int].id == id);
            return true;
        }
        i = i + 1;
    }
    false
}

/// The position of the first row that holds this token, or the number of
/// rows if none does.
fn find_token(rows: &Vec<ConfirmationToken>, subscription_token: &String) -> (at: usize)
    ensures
        at == token_position(tokens_view(rows@), subscription_token@, 0),
        at <= rows.len(),
{
    let mut i: usize = 0;
    while i < rows.len()
        invariant
            i <= rows.len(),
            token_position(tokens_view(rows@), subscription_token@, i as int) == token_position(
                tokens_view(rows@),
                subscription_token@,
                0,
            ),
        decreases rows.len() - i,
    {
        assert(tokens_view(rows@)[i as int] == rows[i as int]@);
        if rows[i].subscription_token == *subscription_token {
            return i;
        }
        i = i + 1;
    }
    i
}

/// Whether this token is among `rows`.
fn contains_token(rows: &Vec<ConfirmationToken>, subscription_token: &String) -> (found: bool)
    ensures
        found == has_token(tokens_view(rows@), subscription_token@),
{
    let at = find_token(rows, subscription_token);
    proof {
        lemma_token_position(tokens_view(rows@), subscription_token@, 0);
    }
    at < rows.len()
}

/// A store in memory. It keeps one transaction open at a time.
#[derive(Debug)]
pub struct SubscriberStore {
    subscribers: Vec<Subscriber>,
    tokens: Vec<ConfirmationToken>,
    in_transaction: bool,
    pending_subscribers: Vec<Subscriber>,
    pending_tokens: Vec<ConfirmationToken>,
}

impl View for SubscriberStore {
    type V = StoreView;

    closed spec fn view(&self) -> StoreView {
        StoreView {
            subscribers: subscribers_view(self.subscribers@),
            tokens: tokens_view(self.tokens@),
            in_transaction: self.in_transaction,
            pending_subscribers: subscribers_view(self.pending_subscribers@),
            pending_tokens: tokens_view(self.pending_tokens@),
        }
    }
}

impl SubscriberStore {
    /// A store that holds nothing.
    pub fn new() -> (store: SubscriberStore)
        ensures
            store@ == StoreView::empty(),
    {
        let store = SubscriberStore {
            subscribers: Vec::new(),
            tokens: Vec::new(),
            in_transaction: false,
            pending_subscribers: Vec::new(),
            pending_tokens: Vec::new(),
        };
        assert(store@.subscribers =~= Seq::empty());
        assert(store@.tokens =~= Seq::empty());
        assert(store@.pending_subscribers =~= Seq::empty());
        assert(store@.pending_tokens =~= Seq::empty());
        store
    }

    /// The committed subscribers, in the order in which they were kept.
    pub fn subscribers(&self) -> (rows: &Vec<Subscriber>)
        ensures
            subscribers_view(rows@) == self@.subscribers,
    {
        &self.subscribers
    }

    /// The committed tokens, in the order in which they were kept.
    pub fn tokens(&self) -> (rows: &Vec<ConfirmationToken>)
        ensures
            tokens_view(rows@) == self@.tokens,
    {
        &self.tokens
    }

    /// Opens a transaction, unless one is open.
    pub fn begin(&mut self) -> (reply: Result<(), StoreError>)
        ensures
            applied(old(self)@, old(self)@.begin(), final(self)@, reply),
    {
        if self.in_transaction {
            Err(StoreError::TransactionOpen)
        } else {
            self.in_transaction = true;
            Ok(())
        }
    }

    /// Adds a subscriber to the open transaction, pending confirmation.
    pub fn insert_subscriber(
        &mut self,
        id: SubscriberId,
        email: &str,
        name: &str,
        subscribed_at: i64,
    ) -> (reply: Result<(), StoreError>)
        ensures
            applied(
                old(self)@,
                old(self)@.insert_subscriber(id, email@, name@, subscribed_at),
                final(self)@,
                reply,
            ),
    {
        if !self.in_transaction {
            return Err(StoreError::NoTransaction);
        }
        proof {
            lemma_has_subscriber_in_either(self@.subscribers, self@.pending_subscribers, id);
        }
        if contains_subscriber(&self.subscribers, id) || contains_subscriber(
            &self.pending_subscribers,
            id,
        ) {
            return Err(StoreError::DuplicateSubscriber);
        }
        let row = Subscriber {
            id,
            email: String::from_str(email),
            name: String::from_str(name),
            status: SubscriptionStatus::PendingConfirmation,
            subscribed_at,
        };
        self.pending_subscribers.push(row);
        proof {
            assert(final(self)@.pending_subscribers =~= old(self)@.pending_subscribers.push(row@));
        }
        Ok(())
    }

    /// Adds a token to the open transaction and binds it to a subscriber.
    pub fn insert_token(&mut self, subscription_token: &str, subscriber_id: SubscriberId) -> (reply:
        Result<(), StoreError>)
        ensures
            applied(
                old(self)@,
                old(self)@.insert_token(subscription_token@, subscriber_id),
                final(self)@,
                reply,
            ),
    {
        if !self.in_transaction {
            return Err(StoreError::NoTransaction);
        }
        let token = String::from_str(subscription_token);
        proof {
            lemma_has_token_in_either(self@.tokens, self@.pending_tokens, token@);
            lemma_has_subscriber_in_either(
                self@.subscribers,
                self@.pending_subscribers,
                subscriber_id,
            );
        }
        if contains_token(&self.tokens, &token) || contains_token(&self.pending_tokens, &token) {
            return Err(StoreError::DuplicateToken);
        }
        if !contains_subscriber(&self.subscribers, subscriber_id) && !contains_subscriber(
            &self.pending_subscribers,
            subscriber_id,
        ) {
            return Err(StoreError::UnknownSubscriber);
        }
        let row = ConfirmationToken { subscription_token: token, subscriber_id };
        self.pending_tokens.push(row);
        proof {
            assert(final(self)@.pending_tokens =~= old(self)@.pending_tokens.push(row@));
        }
        Ok(())
    }

    /// Commits the open transaction: all of its rows are kept, at once.
    pub fn commit(&mut self) -> (reply: Result<(), StoreError>)
        ensures
            applied(old(self)@, old(self)@.commit(), final(self)@, reply),
    {
        if !self.in_transaction {
            return Err(StoreError::NoTransaction);
        }
        self.subscribers.append(&mut self.pending_subscribers);
        self.tokens.append(&mut self.pending_tokens);
        self.in_transaction = false;
        proof {
            assert(final(self)@.subscribers =~= old(self)@.all_subscribers());
            assert(final(self)@.tokens =~= old(self)@.all_tokens());
            assert(final(self)@.pending_subscribers =~= Seq::empty());
            assert(final(self)@.pending_tokens =~= Seq::empty());
        }
        Ok(())
    }

    /// Rolls the open transaction back: none of its rows is kept. Without an
    /// open transaction nothing happens.
    pub fn rollback(&mut self)
        ensures
            final(self)@ == old(self)@.rollback(),
    {
        self.pending_subscribers.clear();
        self.pending_tokens.clear();
        self.in_transaction = false;
        proof {
            assert(final(self)@.pending_subscribers =~= Seq::empty());
            assert(final(self)@.pending_tokens =~= Seq::empty());
        }
    }

    /// The subscriber that a committed token is bound to, if the token is
    /// known. Nothing is changed.
    pub fn lookup_subscriber_by_token(&self, subscription_token: &str) -> (found: Option<
        SubscriberId,
    >)
        ensures
            found == self@.lookup(subscription_token@),
    {
        let token = String::from_str(subscription_token);
        let at = find_token(&self.tokens, &token);
        if at < self.tokens.len() {
            assert(tokens_view(self.tokens@)[at as int] == self.tokens[at as int]@);
            Some(self.tokens[at].subscriber_id)
        } else {
            None
        }
    }

    /// Marks the committed subscriber with this identifier as confirmed.
    /// Doing so again changes nothing, and neither does an identifier that
    /// no subscriber has.
    pub fn confirm_subscriber(&mut self, id: SubscriberId)
        ensures
            final(self)@ == old(self)@.confirm(id),
    {
        let mut i: usize = 0;
        while i < self.subscribers.len()
            invariant
                i <= self.subscribers.len(),
                self.subscribers.len() == old(self).subscribers.len(),
                self.tokens == old(self).tokens,
                self.in_transaction == old(self).in_transaction,
                self.pending_subscribers == old(self).pending_subscribers,
                self.pending_tokens == old(self).pending_tokens,
                forall|j: int|
                    0 <= j < i ==> (#[trigger] self.subscribers[j])@ == confirmed_row(
                        old(self).subscribers[j]@,
                        id,
                    ),
                forall|j: int|
                    i <= j < self.subscribers.len() ==> #[trigger] self.subscribers[j] == old(
                        self,
                    ).subscribers[j],
            decreases self.subscribers.len() - i,
        {
            if self.subscribers[i].id == id {
                self.subscribers[i].status = SubscriptionStatus::Confirmed;
            }
            i = i + 1;
        }
        proof {
            assert(final(self)@.subscribers =~= old(self)@.confirm(id).subscribers);
        }
    }

    /// The identifiers and addresses of the confirmed subscribers, as they
    /// are at this moment. The addresses are given as they are kept: whoever
    /// uses them validates them again.
    pub fn list_confirmed_subscriber_emails(&self) -> (rows: Vec<(SubscriberId, String)>)
        ensures
            pairs_view(rows@) == self@.confirmed(),
    {
        let ghost kept = subscribers_view(self.subscribers@);
        let mut rows: Vec<(SubscriberId, String)> = Vec::new();
        let mut i: usize = 0;
        assert(pairs_view(rows@) + confirmed_from(kept, 0) =~= confirmed_from(kept, 0));
        while i < self.subscribers.len()
            invariant
                i <= self.subscribers.len(),
                kept == subscribers_view(self.subscribers@),
                pairs_view(rows@) + confirmed_from(kept, i as int) == confirmed_from(kept, 0),
            decreases self.subscribers.len() - i,
        {
            assert(kept[i as int] == self.subscribers[i as int]@);
            let ghost before = pairs_view(rows@);
            match self.subscribers[i].status {
                SubscriptionStatus::Confirmed => {
                    rows.push((self.subscribers[i].id, self.subscribers[i].email.clone()));
                    proof {
                        let pair = (kept[i as int].id, kept[i as int].email);
                        assert(pairs_view(rows@) =~= before.push(pair));
                        assert(before.push(pair) + confirmed_from(kept, i + 1) =~= before + (seq![
                            pair,
                        ] + confirmed_from(kept, i + 1)));
                    }
                },
                SubscriptionStatus::PendingConfirmation => {},
            }
            i = i + 1;
        }
        assert(pairs_view(rows@) + confirmed_from(kept, i as int) =~= pairs_view(rows@));
        rows
    }
}

} // verus!
