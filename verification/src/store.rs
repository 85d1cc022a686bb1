//! The subscription store: durable home of subscriber rows and their
//! confirmation tokens.
//!
//! The store is modelled as two in-memory tables behind a transactional
//! interface. Its contracts pin down the three invariants of the design:
//! a subscriber row is visible only once its insert transaction committed;
//! a token row never exists without its subscriber (both writes happen in
//! one atomic transaction); and a status only ever moves from
//! `PendingConfirmation` to `Confirmed`, never back.
//!
//! Transient infrastructure failures (lost connections, timeouts) are part
//! of the store's behaviour, so they are part of the model: `StoreFaults`
//! says which of the next round-trips fail, and every contract states the
//! outcome for the faulty case as well.

use vstd::prelude::*;
use vstd::pervasive::VecAdditionalExecFns;

use crate::domain::NewSubscriber;
use crate::strutil::str_eq;

verus! {

/// Lifecycle status of a subscriber row; `Confirmed` is terminal.
#[derive(Clone, Copy, Debug, PartialEq, Eq, Structural)]
pub enum SubscriberStatus {
    PendingConfirmation,
    Confirmed,
}

/// The store's error classes: a `Conflict` is caused by the data (a
/// uniqueness violation) and retrying cannot help; a `Transient` failure
/// is caused by the infrastructure and may be retried by the caller.
#[derive(Clone, Copy, Debug, PartialEq, Eq, Structural)]
pub enum StoreError {
    Conflict,
    Transient,
}

/// The step of the insert transaction at which it failed.
#[derive(Clone, Copy, Debug, PartialEq, Eq, Structural)]
pub enum InsertPhase {
    Begin,
    InsertSubscriber,
    StoreToken,
    Commit,
}

/// Which of the store's next round-trips fail with a transient error.
/// All `false` means a healthy store; tests flip individual switches to
/// exercise the failure paths.
#[derive(Clone, Copy, Debug, PartialEq, Eq, Structural)]
pub struct StoreFaults {
    pub begin: bool,
    pub insert: bool,
    pub store_token: bool,
    pub commit: bool,
    pub redeem: bool,
    pub confirm: bool,
}

impl StoreFaults {
    /// A healthy store, for use in contracts.
    pub open spec fn spec_none() -> StoreFaults {
        StoreFaults {
            begin: false,
            insert: false,
            store_token: false,
            commit: false,
            redeem: false,
            confirm: false,
        }
    }

    /// A healthy store: no round-trip fails.
    #[verifier::when_used_as_spec(spec_none)]
    pub fn none() -> (f: StoreFaults)
        ensures
            f == (StoreFaults {
                begin: false,
                insert: false,
                store_token: false,
                commit: false,
                redeem: false,
                confirm: false,
            }),
    {
        StoreFaults {
            begin: false,
            insert: false,
            store_token: false,
            commit: false,
            redeem: false,
            confirm: false,
        }
    }
}

/// One row of the `subscriptions` table.
pub struct SubscriberRow {
    pub id: u128,
    pub email: String,
    pub name: String,
    pub subscribed_at: u64,
    pub status: SubscriberStatus,
}

/// One row of the `subscription_tokens` table.
pub struct TokenRow {
    pub subscription_token: String,
    pub subscriber_id: u128,
}

/// Mathematical image of a subscriber row.
#[verifier::ext_equal]
pub struct SubscriberModel {
    pub id: u128,
    pub email: Seq<char>,
    pub name: Seq<char>,
    pub subscribed_at: u64,
    pub status: SubscriberStatus,
}

/// Mathematical image of a token row.
#[verifier::ext_equal]
pub struct TokenModel {
    pub token: Seq<char>,
    pub subscriber_id: u128,
}

/// Mathematical image of the whole store: the two tables in insertion
/// order.
#[verifier::ext_equal]
pub struct StoreModel {
    pub subscribers: Seq<SubscriberModel>,
    pub tokens: Seq<TokenModel>,
}

impl View for SubscriberRow {
    type V = SubscriberModel;

    open spec fn view(&self) -> SubscriberModel {
        SubscriberModel {
            id: self.id,
            email: self.email@,
            name: self.name@,
            subscribed_at: self.subscribed_at,
            status: self.status,
        }
    }
}

impl View for TokenRow {
    type V = TokenModel;

    open spec fn view(&self) -> TokenModel {
        TokenModel { token: self.subscription_token@, subscriber_id: self.subscriber_id }
    }
}

/// The empty store.
pub open spec fn empty_store() -> StoreModel {
    StoreModel { subscribers: Seq::empty(), tokens: Seq::empty() }
}

/// Some subscriber row already uses this email address.
pub open spec fn email_taken(m: StoreModel, email: Seq<char>) -> bool {
    exists|i: int| 0 <= i < m.subscribers.len() && m.subscribers[i].email == email
}

/// Some subscriber row already uses this identifier.
pub open spec fn id_taken(m: StoreModel, id: u128) -> bool {
    exists|i: int| 0 <= i < m.subscribers.len() && m.subscribers[i].id == id
}

/// Some token row already uses this token string.
pub open spec fn token_taken(m: StoreModel, token: Seq<char>) -> bool {
    exists|i: int| 0 <= i < m.tokens.len() && m.tokens[i].token == token
}

/// The subscriber the token is bound to, if the token was ever issued.
pub open spec fn token_lookup(m: StoreModel, token: Seq<char>) -> Option<u128> {
    if token_taken(m, token) {
        Some(m.tokens[choose|i: int| 0 <= i < m.tokens.len() && m.tokens[i].token == token].subscriber_id)
    } else {
        None
    }
}

/// The status of the subscriber with this identifier, if there is one.
pub open spec fn subscriber_status(m: StoreModel, id: u128) -> Option<SubscriberStatus> {
    if id_taken(m, id) {
        Some(m.subscribers[choose|i: int| 0 <= i < m.subscribers.len() && m.subscribers[i].id == id].status)
    } else {
        None
    }
}

/// The store after one committed insert transaction: a pending subscriber
/// row and its token row, appended together.
pub open spec fn with_pending(
    m: StoreModel,
    id: u128,
    email: Seq<char>,
    name: Seq<char>,
    now: u64,
    token: Seq<char>,
) -> StoreModel {
    StoreModel {
        subscribers: m.subscribers.push(
            SubscriberModel {
                id,
                email,
                name,
                subscribed_at: now,
                status: SubscriberStatus::PendingConfirmation,
            },
        ),
        tokens: m.tokens.push(TokenModel { token, subscriber_id: id }),
    }
}

/// The row with its status set to `Confirmed`; everything else unchanged.
pub open spec fn confirm_row(r: SubscriberModel) -> SubscriberModel {
    SubscriberModel {
        id: r.id,
        email: r.email,
        name: r.name,
        subscribed_at: r.subscribed_at,
        status: SubscriberStatus::Confirmed,
    }
}

/// The store after confirming this identifier: the matching row (if any)
/// becomes `Confirmed`; all other rows and the token table are untouched.
pub open spec fn with_confirmed(m: StoreModel, id: u128) -> StoreModel {
    StoreModel {
        subscribers: Seq::new(
            m.subscribers.len(),
            |i: int|
                if m.subscribers[i].id == id {
                    confirm_row(m.subscribers[i])
                } else {
                    m.subscribers[i]
                },
        ),
        tokens: m.tokens,
    }
}

/// Well-formedness of the store: identifiers, emails and tokens are
/// unique, and every token row points at an existing subscriber row.
pub open spec fn store_wf(m: StoreModel) -> bool {
    (forall|i: int, j: int|
        0 <= i < j < m.subscribers.len() ==> m.subscribers[i].id != m.subscribers[j].id) && (forall|
        i: int,
        j: int,
    |
        0 <= i < j < m.subscribers.len() ==> m.subscribers[i].email != m.subscribers[j].email) && (
    forall|i: int, j: int|
        0 <= i < j < m.tokens.len() ==> m.tokens[i].token != m.tokens[j].token) && (forall|i: int|
        0 <= i < m.tokens.len() ==> id_taken(m, m.tokens[i].subscriber_id))
}

/// The staged writes of one open insert transaction. Nothing in it is
/// visible in the store until `commit` succeeds.
pub struct Transaction {
    staged_subscriber: Option<SubscriberRow>,
    staged_token: Option<TokenRow>,
}

/// Mathematical image of an open transaction.
#[verifier::ext_equal]
pub struct TransactionModel {
    pub staged_subscriber: Option<SubscriberModel>,
    pub staged_token: Option<TokenModel>,
}

impl View for Transaction {
    type V = TransactionModel;

    closed spec fn view(&self) -> TransactionModel {
        TransactionModel {
            staged_subscriber: match self.staged_subscriber {
                Some(r) => Some(r@),
                None => None,
            },
            staged_token: match self.staged_token {
                Some(t) => Some(t@),
                None => None,
            },
        }
    }
}

/// The database-backed repository of subscribers and tokens.
pub struct SubscriptionStore {
    subscribers: Vec<SubscriberRow>,
    tokens: Vec<TokenRow>,
    faults: StoreFaults,
}

impl View for SubscriptionStore {
    type V = StoreModel;

    closed spec fn view(&self) -> StoreModel {
        StoreModel {
            subscribers: Seq::new(self.subscribers@.len(), |i: int| self.subscribers@[i]@),
            tokens: Seq::new(self.tokens@.len(), |i: int| self.tokens@[i]@),
        }
    }
}

impl SubscriptionStore {
    /// The fault switches currently in effect.
    pub closed spec fn faults(&self) -> StoreFaults {
        self.faults
    }

    /// Well-formedness of this store's contents.
    pub open spec fn wf(&self) -> bool {
        store_wf(self@)
    }

    /// A healthy, empty store.
    pub fn new() -> (s: SubscriptionStore)
        ensures
            s@ == empty_store(),
            s.wf(),
            s.faults() == StoreFaults::none(),
    {
        let s = SubscriptionStore { subscribers: Vec::new(), tokens: Vec::new(), faults: StoreFaults::none() };
        proof {
            assert(s@ =~= empty_store());
        }
        s
    }

    /// Replaces the fault switches; the tables are untouched.
    pub fn set_faults(&mut self, f: StoreFaults)
        ensures
            final(self)@ == old(self)@,
            final(self).faults() == f,
    {
        self.faults = f;
    }

    /// Number of subscriber rows.
    pub fn subscriber_count(&self) -> (n: usize)
        ensures
            n == self@.subscribers.len(),
    {
        self.subscribers.len()
    }

    /// Number of token rows.
    pub fn token_count(&self) -> (n: usize)
        ensures
            n == self@.tokens.len(),
    {
        self.tokens.len()
    }

    /// The status of the subscriber with this identifier, if any.
    pub fn status_of(&self, subscriber_id: u128) -> (r: Option<SubscriberStatus>)
        requires
            self.wf(),
        ensures
            r == subscriber_status(self@, subscriber_id),
    {
        let n = self.subscribers.len();
        let mut i: usize = 0;
        while i < n
            invariant
                self.wf(),
                n == self@.subscribers.len(),
                i <= n,
                forall|j: int| 0 <= j < i ==> self@.subscribers[j].id != subscriber_id,
            decreases n - i,
        {
            if self.subscribers[i].id == subscriber_id {
                proof {
                    assert(self@.subscribers[i as int].id == subscriber_id);
                    assert(id_taken(self@, subscriber_id));
                    let k = choose|k: int|
                        0 <= k < self@.subscribers.len() && self@.subscribers[k].id
                            == subscriber_id;
                    if k != i as int {
                        if k < i as int {
                            assert(self@.subscribers[k].id != self@.subscribers[i as int].id);
                        } else {
                            assert(self@.subscribers[i as int].id != self@.subscribers[k].id);
                        }
                    }
                    assert(self@.subscribers[i as int].status == subscriber_status(
                        self@,
                        subscriber_id,
                    )->Some_0);
                }
                return Some(self.subscribers[i].status);
            }
            i += 1;
        }
        proof {
            assert(!id_taken(self@, subscriber_id));
        }
        None
    }

    /// Opens an insert transaction.
    ///
    /// Fails with a `Transient` error when the connection round-trip
    /// fails; otherwise yields a transaction with nothing staged.
    pub fn begin(&self) -> (r: Result<Transaction, StoreError>)
        ensures
            self.faults().begin ==> (r matches Err(e) && e == StoreError::Transient),
            !self.faults().begin ==> (r matches Ok(t) && t@ == (TransactionModel {
                staged_subscriber: None,
                staged_token: None,
            })),
    {
        if self.faults.begin {
            return Err(StoreError::Transient);
        }
        Ok(Transaction { staged_subscriber: None, staged_token: None })
    }

    /// Stages the subscriber row of the transaction: a fresh identifier,
    /// the validated identity, status `PendingConfirmation`.
    ///
    /// Fails with `Transient` when the round-trip fails, and with
    /// `Conflict` when the email address or the identifier is already
    /// used by a committed row. On failure the transaction is unchanged.
    pub fn insert_subscriber(
        &self,
        txn: &mut Transaction,
        new_sub: &NewSubscriber,
        subscriber_id: u128,
        now: u64,
    ) -> (r: Result<u128, StoreError>)
        requires
            old(txn)@.staged_subscriber is None,
        ensures
            self.faults().insert ==> (r matches Err(e) && e == StoreError::Transient),
            !self.faults().insert && (email_taken(self@, new_sub.email@) || id_taken(
                self@,
                subscriber_id,
            )) ==> (r matches Err(e) && e == StoreError::Conflict),
            r.is_err() ==> final(txn)@ == old(txn)@,
            !self.faults().insert && !email_taken(self@, new_sub.email@) && !id_taken(
                self@,
                subscriber_id,
            ) ==> (r matches Ok(id) && id == subscriber_id && final(txn)@ == (TransactionModel {
                staged_subscriber: Some(
                    SubscriberModel {
                        id: subscriber_id,
                        email: new_sub.email@,
                        name: new_sub.name@,
                        subscribed_at: now,
                        status: SubscriberStatus::PendingConfirmation,
                    },
                ),
                staged_token: old(txn)@.staged_token,
            })),
    {
        if self.faults.insert {
            return Err(StoreError::Transient);
        }
        let n = self.subscribers.len();
        let mut i: usize = 0;
        while i < n
            invariant
                !self.faults().insert,
                (*txn)@ == (*old(txn))@,
                n == self@.subscribers.len(),
                i <= n,
                forall|j: int| 0 <= j < i ==> self@.subscribers[j].email != new_sub.email@,
                forall|j: int| 0 <= j < i ==> self@.subscribers[j].id != subscriber_id,
            decreases n - i,
        {
            if str_eq(self.subscribers[i].email.as_str(), new_sub.email.as_str()) {
                proof {
                    assert(self@.subscribers[i as int].email == new_sub.email@);
                    assert(email_taken(self@, new_sub.email@));
                }
                return Err(StoreError::Conflict);
            }
            if self.subscribers[i].id == subscriber_id {
                proof {
                    assert(self@.subscribers[i as int].id == subscriber_id);
                    assert(id_taken(self@, subscriber_id));
                }
                return Err(StoreError::Conflict);
            }
            i += 1;
        }
        proof {
            assert(!email_taken(self@, new_sub.email@));
            assert(!id_taken(self@, subscriber_id));
        }
        let email = String::from_str(new_sub.email.as_str());
        let name = String::from_str(new_sub.name.as_str());
        txn.staged_subscriber = Some(
            SubscriberRow {
                id: subscriber_id,
                email,
                name,
                subscribed_at: now,
                status: SubscriberStatus::PendingConfirmation,
            },
        );
        Ok(subscriber_id)
    }

    /// Stages the token row of the transaction, bound to the staged
    /// subscriber.
    ///
    /// Fails with `Transient` when the round-trip fails, and with
    /// `Conflict` when the token string is already used by a committed
    /// row. On failure the transaction is unchanged.
    pub fn store_token(
        &self,
        txn: &mut Transaction,
        subscriber_id: u128,
        subscription_token: &str,
    ) -> (r: Result<(), StoreError>)
        requires
            old(txn)@.staged_subscriber matches Some(s) && s.id == subscriber_id,
            old(txn)@.staged_token is None,
        ensures
            self.faults().store_token ==> (r matches Err(e) && e == StoreError::Transient),
            !self.faults().store_token && token_taken(self@, subscription_token@) ==> (r matches Err(
                e,
            ) && e == StoreError::Conflict),
            r.is_err() ==> final(txn)@ == old(txn)@,
            !self.faults().store_token && !token_taken(self@, subscription_token@) ==> (r
                matches Ok(u) && final(txn)@ == (TransactionModel {
                staged_subscriber: old(txn)@.staged_subscriber,
                staged_token: Some(
                    TokenModel { token: subscription_token@, subscriber_id },
                ),
            })),
    {
        if self.faults.store_token {
            return Err(StoreError::Transient);
        }
        let n = self.tokens.len();
        let mut i: usize = 0;
        while i < n
            invariant
                !self.faults().store_token,
                (*txn)@ == (*old(txn))@,
                n == self@.tokens.len(),
                i <= n,
                forall|j: int| 0 <= j < i ==> self@.tokens[j].token != subscription_token@,
            decreases n - i,
        {
            if str_eq(self.tokens[i].subscription_token.as_str(), subscription_token) {
                proof {
                    assert(self@.tokens[i as int].token == subscription_token@);
                    assert(token_taken(self@, subscription_token@));
                }
                return Err(StoreError::Conflict);
            }
            i += 1;
        }
        proof {
            assert(!token_taken(self@, subscription_token@));
        }
        let token = String::from_str(subscription_token);
        txn.staged_token = Some(TokenRow { subscription_token: token, subscriber_id });
        Ok(())
    }

    /// Commits the transaction: both staged rows become visible at once,
    /// or — when the commit round-trip fails — neither does.
    pub fn commit(&mut self, txn: Transaction) -> (r: Result<(), StoreError>)
        requires
            old(self).wf(),
            txn@.staged_subscriber matches Some(s) && txn@.staged_token matches Some(t)
                && t.subscriber_id == s.id && s.status == SubscriberStatus::PendingConfirmation
                && !email_taken(old(self)@, s.email) && !id_taken(old(self)@, s.id)
                && !token_taken(old(self)@, t.token),
        ensures
            final(self).faults() == old(self).faults(),
            final(self).wf(),
            old(self).faults().commit ==> (r matches Err(e) && e == StoreError::Transient
                && final(self)@ == old(self)@),
            !old(self).faults().commit ==> (r matches Ok(u) && final(self)@ == with_pending(
                old(self)@,
                txn@.staged_subscriber->Some_0.id,
                txn@.staged_subscriber->Some_0.email,
                txn@.staged_subscriber->Some_0.name,
                txn@.staged_subscriber->Some_0.subscribed_at,
                txn@.staged_token->Some_0.token,
            )),
    {
        if self.faults.commit {
            proof {
                assert(self@ =~= old(self)@);
            }
            return Err(StoreError::Transient);
        }
        match (txn.staged_subscriber, txn.staged_token) {
            (Some(srow), Some(trow)) => {
                let ghost pre = self@;
                let ghost sm = srow@;
                let ghost tm = trow@;
                self.subscribers.push(srow);
                self.tokens.push(trow);
                proof {
                    assert(self@.subscribers =~= pre.subscribers.push(sm));
                    assert(self@.tokens =~= pre.tokens.push(tm));
                    assert(self@ =~= with_pending(
                        pre,
                        sm.id,
                        sm.email,
                        sm.name,
                        sm.subscribed_at,
                        tm.token,
                    ));
                    lemma_insert_preserves_wf(pre, sm.id, sm.email, sm.name, sm.subscribed_at, tm.token);
                }
                Ok(())
            },
            _ => {
                proof {
                    assert(false);
                }
                Err(StoreError::Transient)
            },
        }
    }

    /// The whole insert transaction of one subscription: begin, write the
    /// subscriber row, write its token row, commit. All-or-nothing: on
    /// any failure the visible store is exactly what it was before.
    pub fn insert_pending(
        &mut self,
        new_sub: &NewSubscriber,
        subscriber_id: u128,
        subscription_token: &str,
        now: u64,
    ) -> (r: Result<(), (InsertPhase, StoreError)>)
        requires
            old(self).wf(),
        ensures
            final(self).faults() == old(self).faults(),
            final(self).wf(),
            r.is_err() ==> final(self)@ == old(self)@,
            r.is_ok() <==> !old(self).faults().begin && !old(self).faults().insert && !old(
                self,
            ).faults().store_token && !old(self).faults().commit && !email_taken(
                old(self)@,
                new_sub.email@,
            ) && !id_taken(old(self)@, subscriber_id) && !token_taken(
                old(self)@,
                subscription_token@,
            ),
            r.is_ok() ==> final(self)@ == with_pending(
                old(self)@,
                subscriber_id,
                new_sub.email@,
                new_sub.name@,
                now,
                subscription_token@,
            ),
            old(self).faults().begin ==> r == Err::<(), (InsertPhase, StoreError)>(
                (InsertPhase::Begin, StoreError::Transient),
            ),
            !old(self).faults().begin && old(self).faults().insert ==> r == Err::<
                (),
                (InsertPhase, StoreError),
            >((InsertPhase::InsertSubscriber, StoreError::Transient)),
            !old(self).faults().begin && !old(self).faults().insert && (email_taken(
                old(self)@,
                new_sub.email@,
            ) || id_taken(old(self)@, subscriber_id)) ==> r == Err::<
                (),
                (InsertPhase, StoreError),
            >((InsertPhase::InsertSubscriber, StoreError::Conflict)),
            !old(self).faults().begin && !old(self).faults().insert && !email_taken(
                old(self)@,
                new_sub.email@,
            ) && !id_taken(old(self)@, subscriber_id) && old(self).faults().store_token ==> r
                == Err::<(), (InsertPhase, StoreError)>((InsertPhase::StoreToken, StoreError::Transient)),
            !old(self).faults().begin && !old(self).faults().insert && !email_taken(
                old(self)@,
                new_sub.email@,
            ) && !id_taken(old(self)@, subscriber_id) && !old(self).faults().store_token
                && token_taken(old(self)@, subscription_token@) ==> r == Err::<
                (),
                (InsertPhase, StoreError),
            >((InsertPhase::StoreToken, StoreError::Conflict)),
            !old(self).faults().begin && !old(self).faults().insert && !email_taken(
                old(self)@,
                new_sub.email@,
            ) && !id_taken(old(self)@, subscriber_id) && !old(self).faults().store_token
                && !token_taken(old(self)@, subscription_token@) && old(self).faults().commit ==> r
                == Err::<(), (InsertPhase, StoreError)>((InsertPhase::Commit, StoreError::Transient)),
    {
        let mut txn = match self.begin() {
            Ok(t) => t,
            Err(e) => {
                proof {
                    assert(self@ =~= old(self)@);
                }
                return Err((InsertPhase::Begin, e));
            },
        };
        match self.insert_subscriber(&mut txn, new_sub, subscriber_id, now) {
            Ok(_) => (),
            Err(e) => {
                proof {
                    assert(self@ =~= old(self)@);
                }
                return Err((InsertPhase::InsertSubscriber, e));
            },
        }
        match self.store_token(&mut txn, subscriber_id, subscription_token) {
            Ok(_) => (),
            Err(e) => {
                proof {
                    assert(self@ =~= old(self)@);
                }
                return Err((InsertPhase::StoreToken, e));
            },
        }
        match self.commit(txn) {
            Ok(_) => Ok(()),
            Err(e) => Err((InsertPhase::Commit, e)),
        }
    }

    /// Redemption lookup: the subscriber bound to this token.
    ///
    /// An unknown token is not an error: it yields `Ok(None)`, which the
    /// caller reports as "not found". A transient failure is an `Err`.
    pub fn get_subscriber_id_from_token(&self, subscription_token: &str) -> (r: Result<
        Option<u128>,
        StoreError,
    >)
        requires
            self.wf(),
        ensures
            self.faults().redeem ==> (r matches Err(e) && e == StoreError::Transient),
            !self.faults().redeem ==> r == Ok::<Option<u128>, StoreError>(
                token_lookup(self@, subscription_token@),
            ),
    {
        if self.faults.redeem {
            return Err(StoreError::Transient);
        }
        let n = self.tokens.len();
        let mut i: usize = 0;
        while i < n
            invariant
                self.wf(),
                !self.faults().redeem,
                n == self@.tokens.len(),
                i <= n,
                forall|j: int| 0 <= j < i ==> self@.tokens[j].token != subscription_token@,
            decreases n - i,
        {
            if str_eq(self.tokens[i].subscription_token.as_str(), subscription_token) {
                proof {
                    assert(self@.tokens[i as int].token == subscription_token@);
                    assert(token_taken(self@, subscription_token@));
                    let k = choose|k: int|
                        0 <= k < self@.tokens.len() && self@.tokens[k].token
                            == subscription_token@;
                    if k != i as int {
                        if k < i as int {
                            assert(self@.tokens[k].token != self@.tokens[i as int].token);
                        } else {
                            assert(self@.tokens[i as int].token != self@.tokens[k].token);
                        }
                    }
                }
                return Ok(Some(self.tokens[i].subscriber_id));
            }
            i += 1;
        }
        proof {
            assert(!token_taken(self@, subscription_token@));
        }
        Ok(None)
    }

    /// Sets the subscriber's status to `Confirmed`.
    ///
    /// Idempotent: confirming an already-confirmed subscriber, or an
    /// identifier with no row at all, succeeds and changes nothing it
    /// should not. Only a transient failure is an error, and then the
    /// store is unchanged.
    pub fn confirm_subscriber(&mut self, subscriber_id: u128) -> (r: Result<(), StoreError>)
        requires
            old(self).wf(),
        ensures
            final(self).faults() == old(self).faults(),
            final(self).wf(),
            old(self).faults().confirm ==> (r matches Err(e) && e == StoreError::Transient
                && final(self)@ == old(self)@),
            !old(self).faults().confirm ==> (r matches Ok(u) && final(self)@ == with_confirmed(
                old(self)@,
                subscriber_id,
            )),
    {
        if self.faults.confirm {
            proof {
                assert(self@ =~= old(self)@);
            }
            return Err(StoreError::Transient);
        }
        let n = self.subscribers.len();
        let mut i: usize = 0;
        while i < n
            invariant
                n == self.subscribers@.len(),
                self.subscribers@.len() == old(self).subscribers@.len(),
                self.tokens@ == old(self).tokens@,
                self.faults == old(self).faults,
                i <= n,
                forall|j: int| i <= j < n ==> self.subscribers@[j] == old(self).subscribers@[j],
                forall|j: int|
                    0 <= j < i ==> self.subscribers@[j]@ == (if old(self).subscribers@[j]@.id
                        == subscriber_id {
                        confirm_row(old(self).subscribers@[j]@)
                    } else {
                        old(self).subscribers@[j]@
                    }),
            decreases n - i,
        {
            if self.subscribers[i].id == subscriber_id {
                let email = self.subscribers[i].email.clone();
                let name = self.subscribers[i].name.clone();
                let subscribed_at = self.subscribers[i].subscribed_at;
                let updated = SubscriberRow {
                    id: subscriber_id,
                    email,
                    name,
                    subscribed_at,
                    status: SubscriberStatus::Confirmed,
                };
                self.subscribers.set(i, updated);
            }
            i += 1;
        }
        proof {
            assert(self@ =~= with_confirmed(old(self)@, subscriber_id));
            lemma_confirm_preserves_wf(old(self)@, subscriber_id);
        }
        Ok(())
    }
}

/// A committed insert keeps the store well-formed as long as the new
/// identifier, email and token are all fresh.
pub proof fn lemma_insert_preserves_wf(
    m: StoreModel,
    id: u128,
    email: Seq<char>,
    name: Seq<char>,
    now: u64,
    token: Seq<char>,
)
    requires
        store_wf(m),
        !email_taken(m, email),
        !id_taken(m, id),
        !token_taken(m, token),
    ensures
        store_wf(with_pending(m, id, email, name, now, token)),
{
    let m2 = with_pending(m, id, email, name, now, token);
    assert forall|i: int| 0 <= i < m2.tokens.len() implies id_taken(m2, m2.tokens[i].subscriber_id) by {
        if i < m.tokens.len() {
            assert(id_taken(m, m.tokens[i].subscriber_id));
            let k = choose|k: int|
                0 <= k < m.subscribers.len() && m.subscribers[k].id == m.tokens[i].subscriber_id;
            assert(m2.subscribers[k].id == m2.tokens[i].subscriber_id);
        } else {
            assert(m2.tokens[i].subscriber_id == id);
            assert(m2.subscribers[m.subscribers.len() as int].id == id);
        }
    }
}

/// A committed insert never touches existing rows: every subscriber that
/// was already there keeps its status.
pub proof fn lemma_with_pending_preserves_status(
    m: StoreModel,
    id_new: u128,
    email: Seq<char>,
    name: Seq<char>,
    now: u64,
    token: Seq<char>,
    id: u128,
)
    requires
        store_wf(m),
        !id_taken(m, id_new),
        id_taken(m, id),
    ensures
        subscriber_status(with_pending(m, id_new, email, name, now, token), id)
            == subscriber_status(m, id),
{
    let m2 = with_pending(m, id_new, email, name, now, token);
    let k = choose|k: int| 0 <= k < m.subscribers.len() && m.subscribers[k].id == id;
    assert(m2.subscribers[k].id == id);
    assert(id_taken(m2, id));
    let k2 = choose|k2: int| 0 <= k2 < m2.subscribers.len() && m2.subscribers[k2].id == id;
    assert(id != id_new);
    assert(k2 < m.subscribers.len());
    if k != k2 {
        if k < k2 {
            assert(m.subscribers[k].id != m.subscribers[k2].id);
        } else {
            assert(m.subscribers[k2].id != m.subscribers[k].id);
        }
    }
    assert(subscriber_status(m2, id) == Some(m.subscribers[k].status));
    let k3 = choose|k3: int| 0 <= k3 < m.subscribers.len() && m.subscribers[k3].id == id;
    if k != k3 {
        if k < k3 {
            assert(m.subscribers[k].id != m.subscribers[k3].id);
        } else {
            assert(m.subscribers[k3].id != m.subscribers[k].id);
        }
    }
}

/// Confirming a subscriber keeps the store well-formed.
pub proof fn lemma_confirm_preserves_wf(m: StoreModel, id: u128)
    requires
        store_wf(m),
    ensures
        store_wf(with_confirmed(m, id)),
{
    let m2 = with_confirmed(m, id);
    assert(forall|i: int|
        0 <= i < m2.subscribers.len() ==> m2.subscribers[i].id == m.subscribers[i].id
            && m2.subscribers[i].email == m.subscribers[i].email);
    assert forall|i: int| 0 <= i < m2.tokens.len() implies id_taken(m2, m2.tokens[i].subscriber_id) by {
        assert(id_taken(m, m.tokens[i].subscriber_id));
        let k = choose|k: int|
            0 <= k < m.subscribers.len() && m.subscribers[k].id == m.tokens[i].subscriber_id;
        assert(m2.subscribers[k].id == m2.tokens[i].subscriber_id);
    }
}

} // verus!
