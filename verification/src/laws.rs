//! Laws of the store model.
//!
//! The verified store methods pin each call's effect down to a model
//! transition (`with_pending`, `with_confirmed`). This module states the
//! properties those transitions obey across calls: well-formedness is
//! preserved, confirmation is idempotent, and a subscriber once
//! `Confirmed` stays `Confirmed` under any sequence of operations.

use vstd::prelude::*;

use crate::store::{
    email_taken, id_taken, lemma_confirm_preserves_wf, lemma_insert_preserves_wf,
    lemma_with_pending_preserves_status, store_wf, subscriber_status, token_lookup, token_taken,
    with_confirmed, with_pending, StoreModel, SubscriberStatus,
};

verus! {

/// One mutating store operation, at the model level.
pub enum StoreOp {
    InsertPending { id: u128, email: Seq<char>, name: Seq<char>, now: u64, token: Seq<char> },
    ConfirmSubscriber { id: u128 },
}

/// The store after one operation, applied the way the verified methods
/// apply it: an insert commits only when identifier, email and token
/// are all fresh; a confirm always applies (to zero or one row).
pub open spec fn apply_op(m: StoreModel, op: StoreOp) -> StoreModel {
    match op {
        StoreOp::InsertPending { id, email, name, now, token } => {
            if !email_taken(m, email) && !id_taken(m, id) && !token_taken(m, token) {
                with_pending(m, id, email, name, now, token)
            } else {
                m
            }
        },
        StoreOp::ConfirmSubscriber { id } => with_confirmed(m, id),
    }
}

/// The store after a sequence of operations, first element first.
pub open spec fn apply_ops(m: StoreModel, ops: Seq<StoreOp>) -> StoreModel
    decreases ops.len(),
{
    if ops.len() == 0 {
        m
    } else {
        apply_ops(apply_op(m, ops[0]), ops.drop_first())
    }
}

/// Every operation keeps the store well-formed.
pub proof fn lemma_apply_op_preserves_wf(m: StoreModel, op: StoreOp)
    requires
        store_wf(m),
    ensures
        store_wf(apply_op(m, op)),
{
    match op {
        StoreOp::InsertPending { id, email, name, now, token } => {
            if !email_taken(m, email) && !id_taken(m, id) && !token_taken(m, token) {
                lemma_insert_preserves_wf(m, id, email, name, now, token);
            }
        },
        StoreOp::ConfirmSubscriber { id } => {
            lemma_confirm_preserves_wf(m, id);
        },
    }
}

/// What confirming `cid` does to the status of `id`: marks it
/// `Confirmed` when they are the same subscriber, leaves it alone
/// otherwise, and never adds or removes a subscriber.
pub proof fn lemma_with_confirmed_status(m: StoreModel, cid: u128, id: u128)
    requires
        store_wf(m),
    ensures
        id_taken(with_confirmed(m, cid), id) == id_taken(m, id),
        id == cid && id_taken(m, id) ==> subscriber_status(with_confirmed(m, cid), id) == Some(
            SubscriberStatus::Confirmed,
        ),
        id != cid ==> subscriber_status(with_confirmed(m, cid), id) == subscriber_status(m, id),
{
    let m2 = with_confirmed(m, cid);
    assert(forall|i: int|
        0 <= i < m2.subscribers.len() ==> m2.subscribers[i].id == m.subscribers[i].id);
    if id_taken(m, id) {
        let k = choose|k: int| 0 <= k < m.subscribers.len() && m.subscribers[k].id == id;
        assert(m2.subscribers[k].id == id);
        assert(id_taken(m2, id));
        let k2 = choose|k2: int| 0 <= k2 < m2.subscribers.len() && m2.subscribers[k2].id == id;
        if k != k2 {
            if k < k2 {
                assert(m.subscribers[k].id != m.subscribers[k2].id);
            } else {
                assert(m.subscribers[k2].id != m.subscribers[k].id);
            }
        }
        let k3 = choose|k3: int| 0 <= k3 < m.subscribers.len() && m.subscribers[k3].id == id;
        if k != k3 {
            if k < k3 {
                assert(m.subscribers[k].id != m.subscribers[k3].id);
            } else {
                assert(m.subscribers[k3].id != m.subscribers[k].id);
            }
        }
        assert(subscriber_status(m2, id) == Some(m2.subscribers[k].status));
        assert(subscriber_status(m, id) == Some(m.subscribers[k].status));
    } else {
        if id_taken(m2, id) {
            let k = choose|k: int| 0 <= k < m2.subscribers.len() && m2.subscribers[k].id == id;
            assert(m.subscribers[k].id == id);
            assert(id_taken(m, id));
        }
    }
}

/// One operation never downgrades a confirmed subscriber.
pub proof fn lemma_op_status_monotonic(m: StoreModel, op: StoreOp, id: u128)
    requires
        store_wf(m),
        subscriber_status(m, id) == Some(SubscriberStatus::Confirmed),
    ensures
        subscriber_status(apply_op(m, op), id) == Some(SubscriberStatus::Confirmed),
{
    assert(id_taken(m, id));
    match op {
        StoreOp::InsertPending { id: id_new, email, name, now, token } => {
            if !email_taken(m, email) && !id_taken(m, id_new) && !token_taken(m, token) {
                lemma_with_pending_preserves_status(m, id_new, email, name, now, token, id);
            }
        },
        StoreOp::ConfirmSubscriber { id: cid } => {
            lemma_with_confirmed_status(m, cid, id);
        },
    }
}

/// Monotonic status: under any sequence of store operations, a
/// subscriber once `Confirmed` never returns to `PendingConfirmation`.
pub proof fn lemma_status_monotonic(m: StoreModel, ops: Seq<StoreOp>, id: u128)
    requires
        store_wf(m),
        subscriber_status(m, id) == Some(SubscriberStatus::Confirmed),
    ensures
        subscriber_status(apply_ops(m, ops), id) == Some(SubscriberStatus::Confirmed),
    decreases ops.len(),
{
    if ops.len() > 0 {
        lemma_apply_op_preserves_wf(m, ops[0]);
        lemma_op_status_monotonic(m, ops[0], id);
        lemma_status_monotonic(apply_op(m, ops[0]), ops.drop_first(), id);
    }
}

/// Idempotent confirmation: when a token is known, confirming through
/// it marks its subscriber `Confirmed`; the token still resolves to the
/// same subscriber afterwards, and confirming again changes nothing.
/// Together with `confirm`'s contract this says that two successive
/// confirmations of the same token both succeed and leave the
/// subscriber `Confirmed`.
pub proof fn lemma_confirm_idempotent(m: StoreModel, token: Seq<char>)
    requires
        store_wf(m),
        token_lookup(m, token) is Some,
    ensures
        token_lookup(with_confirmed(m, token_lookup(m, token)->Some_0), token) == token_lookup(
            m,
            token,
        ),
        subscriber_status(
            with_confirmed(m, token_lookup(m, token)->Some_0),
            token_lookup(m, token)->Some_0,
        ) == Some(SubscriberStatus::Confirmed),
        with_confirmed(with_confirmed(m, token_lookup(m, token)->Some_0), token_lookup(m, token)->Some_0)
            == with_confirmed(m, token_lookup(m, token)->Some_0),
{
    let id = token_lookup(m, token)->Some_0;
    let m2 = with_confirmed(m, id);
    let ti = choose|i: int| 0 <= i < m.tokens.len() && m.tokens[i].token == token;
    assert(m.tokens[ti].subscriber_id == id);
    assert(id_taken(m, m.tokens[ti].subscriber_id));
    lemma_with_confirmed_status(m, id, id);
    assert(with_confirmed(m2, id).subscribers =~= m2.subscribers);
    assert(with_confirmed(m2, id) =~= m2);
}

} // verus!
