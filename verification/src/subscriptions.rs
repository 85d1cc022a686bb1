//! The subscribe workflow: validate the form, commit the subscriber and
//! its confirmation token in one transaction, then send the confirmation
//! email.
//!
//! `subscribe_core` is the deterministic heart: it takes the freshly
//! drawn identifier and token as arguments, so its contract pins the
//! outcome for every input. `subscribe` draws them and delegates.

use vstd::prelude::*;
use vstd::string::StringExecFns;

use crate::domain::{valid_email, valid_name, FormData, NewSubscriber};
use crate::notify::{EmailNotifier, NotifyError, SendEvent};
use crate::response::HttpStatus;
use crate::store::{
    email_taken, id_taken, subscriber_status, token_taken, with_pending, InsertPhase, StoreFaults,
    StoreModel, SubscriberStatus, SubscriptionStore,
};
use crate::store::lemma_with_pending_preserves_status;
use crate::token::{generate_subscription_token, valid_token};

verus! {

/// Relies on `uuid::Uuid::new_v4` (read back through `as_u128`): a
/// freshly drawn random 128-bit identifier. Nothing is assumed about its
/// value.
#[verifier::external_body]
fn new_subscriber_id() -> u128 {
    uuid::Uuid::new_v4().as_u128()
}

/// The confirmation link a subscriber is asked to visit.
pub open spec fn confirmation_link(base_url: Seq<char>, token: Seq<char>) -> Seq<char> {
    base_url + "/subscriptions/confirm?subscription_token="@ + token
}

/// The plain-text body of the confirmation email.
pub open spec fn plain_body_of(link: Seq<char>) -> Seq<char> {
    "Welcome to our newsletter!\nVisit "@ + link + " to confirm your subscription."@
}

/// The HTML body of the confirmation email.
pub open spec fn html_body_of(link: Seq<char>) -> Seq<char> {
    "Welcome to our newsletter!<br />Click <a href=\""@ + link
        + "\">here</a> to confirm your subscription."@
}

/// What one subscribe call hands to the notifier.
pub open spec fn confirmation_event(
    email: Seq<char>,
    base_url: Seq<char>,
    token: Seq<char>,
    delivered: bool,
) -> SendEvent {
    SendEvent {
        recipient: email,
        subject: "Welcome"@,
        html_body: html_body_of(confirmation_link(base_url, token)),
        text_body: plain_body_of(confirmation_link(base_url, token)),
        delivered,
    }
}

/// All conditions under which the insert transaction of a subscribe call
/// commits.
pub open spec fn insert_would_succeed(
    m: StoreModel,
    f: StoreFaults,
    email: Seq<char>,
    id: u128,
    token: Seq<char>,
) -> bool {
    !f.begin && !f.insert && !f.store_token && !f.commit && !email_taken(m, email) && !id_taken(
        m,
        id,
    ) && !token_taken(m, token)
}

/// The confirmation link for this token, ready to be embedded in an
/// email.
pub fn build_confirmation_link(base_url: &String, subscription_token: &String) -> (r: String)
    ensures
        r@ == confirmation_link(base_url@, subscription_token@),
{
    let link = base_url.clone().concat("/subscriptions/confirm?subscription_token=").concat(
        subscription_token.as_str(),
    );
    proof {
        assert(link@ =~= confirmation_link(base_url@, subscription_token@));
    }
    link
}

/// Builds the confirmation link and both bodies and attempts the send.
/// Exactly this attempt, with its outcome, ends up in the notifier's
/// log.
pub fn send_confirmation_email<N: EmailNotifier>(
    notifier: &mut N,
    new_subscriber: &NewSubscriber,
    base_url: &String,
    subscription_token: &String,
) -> (r: Result<(), NotifyError>)
    ensures
        final(notifier).sent() == old(notifier).sent().push(
            confirmation_event(
                new_subscriber.email@,
                base_url@,
                subscription_token@,
                r is Ok,
            ),
        ),
{
    let link = build_confirmation_link(base_url, subscription_token);
    let plain_body = String::from_str("Welcome to our newsletter!\nVisit ").concat(
        link.as_str(),
    ).concat(" to confirm your subscription.");
    let html_body = String::from_str("Welcome to our newsletter!<br />Click <a href=\"").concat(
        link.as_str(),
    ).concat("\">here</a> to confirm your subscription.");
    proof {
        assert(plain_body@ =~= plain_body_of(link@));
        assert(html_body@ =~= html_body_of(link@));
    }
    notifier.send_email(&new_subscriber.email, "Welcome", &html_body, &plain_body)
}

/// The HTTP status reported when the insert transaction failed at the
/// given phase: failures of transaction management itself (begin,
/// commit) are the server's fault; failed writes are reported like bad
/// input, conflicts included.
pub fn response_for_insert_failure(phase: InsertPhase) -> (r: HttpStatus)
    ensures
        phase == InsertPhase::Begin || phase == InsertPhase::Commit ==> r
            == HttpStatus::InternalServerError,
        phase == InsertPhase::InsertSubscriber || phase == InsertPhase::StoreToken ==> r
            == HttpStatus::BadRequest,
{
    match phase {
        InsertPhase::Begin => HttpStatus::InternalServerError,
        InsertPhase::InsertSubscriber => HttpStatus::BadRequest,
        InsertPhase::StoreToken => HttpStatus::BadRequest,
        InsertPhase::Commit => HttpStatus::InternalServerError,
    }
}

/// The HTTP status reported for the notifier's outcome: a delivered
/// confirmation email completes the request, a refused one is a server
/// error (the committed rows stay).
pub fn response_for_notify(delivered: bool) -> (r: HttpStatus)
    ensures
        delivered ==> r == HttpStatus::Success,
        !delivered ==> r == HttpStatus::InternalServerError,
{
    if delivered {
        HttpStatus::Success
    } else {
        HttpStatus::InternalServerError
    }
}

/// One subscribe call, with the identifier and token it will use passed
/// in. Validates, runs the insert transaction, and notifies; the
/// contract states the exact store contents, notifier log and status
/// code for every case.
pub fn subscribe_core<N: EmailNotifier>(
    store: &mut SubscriptionStore,
    notifier: &mut N,
    base_url: &String,
    form: FormData,
    subscriber_id: u128,
    subscription_token: &String,
    now: u64,
) -> (r: HttpStatus)
    requires
        old(store).wf(),
    ensures
        final(store).wf(),
        final(store).faults() == old(store).faults(),
        // rejected input: no store mutation, no email
        !(valid_name(form.name@) && valid_email(form.email@)) ==> r == HttpStatus::BadRequest
            && final(store)@ == old(store)@ && final(notifier).sent() == old(notifier).sent(),
        // valid input whose insert fails: no store mutation, no email
        valid_name(form.name@) && valid_email(form.email@) && !insert_would_succeed(
            old(store)@,
            old(store).faults(),
            form.email@,
            subscriber_id,
            subscription_token@,
        ) ==> final(store)@ == old(store)@ && final(notifier).sent() == old(notifier).sent(),
        // ... reported as the server's fault at begin and commit,
        valid_name(form.name@) && valid_email(form.email@) && (old(store).faults().begin || (
        !old(store).faults().begin && !old(store).faults().insert && !email_taken(
            old(store)@,
            form.email@,
        ) && !id_taken(old(store)@, subscriber_id) && !old(store).faults().store_token
            && !token_taken(old(store)@, subscription_token@) && old(store).faults().commit))
            ==> r == HttpStatus::InternalServerError,
        // ... and as bad input at the two writes
        valid_name(form.name@) && valid_email(form.email@) && !old(store).faults().begin && (old(
            store,
        ).faults().insert || email_taken(old(store)@, form.email@) || id_taken(
            old(store)@,
            subscriber_id,
        ) || (!old(store).faults().insert && !email_taken(old(store)@, form.email@) && !id_taken(
            old(store)@,
            subscriber_id,
        ) && (old(store).faults().store_token || token_taken(old(store)@, subscription_token@))))
            ==> r == HttpStatus::BadRequest,
        // committed: both rows visible, exactly one send attempted, and
        // the status tells whether it was delivered
        valid_name(form.name@) && valid_email(form.email@) && insert_would_succeed(
            old(store)@,
            old(store).faults(),
            form.email@,
            subscriber_id,
            subscription_token@,
        ) ==> final(store)@ == with_pending(
            old(store)@,
            subscriber_id,
            form.email@,
            form.name@,
            now,
            subscription_token@,
        ) && final(notifier).sent() == old(notifier).sent().push(
            confirmation_event(
                form.email@,
                base_url@,
                subscription_token@,
                r == HttpStatus::Success,
            ),
        ) && (r == HttpStatus::Success || r == HttpStatus::InternalServerError),
{
    let new_subscriber = match NewSubscriber::try_from(form) {
        Ok(s) => s,
        Err(_) => {
            return HttpStatus::BadRequest;
        },
    };
    match store.insert_pending(
        &new_subscriber,
        subscriber_id,
        subscription_token.as_str(),
        now,
    ) {
        Ok(_) => (),
        Err((phase, _)) => {
            return response_for_insert_failure(phase);
        },
    }
    match send_confirmation_email(notifier, &new_subscriber, base_url, subscription_token) {
        Ok(_) => response_for_notify(true),
        Err(_) => response_for_notify(false),
    }
}

/// The subscription entry point: draws a fresh identifier and token and
/// runs `subscribe_core` with them. Everything that does not depend on
/// the drawn values is stated here; a rejected form never touches the
/// store, an accepted one can only append its own two rows.
pub fn subscribe<N: EmailNotifier>(
    store: &mut SubscriptionStore,
    notifier: &mut N,
    base_url: &String,
    form: FormData,
    now: u64,
) -> (r: HttpStatus)
    requires
        old(store).wf(),
    ensures
        final(store).wf(),
        final(store).faults() == old(store).faults(),
        // rejected input: no store mutation, no email
        !(valid_name(form.name@) && valid_email(form.email@)) ==> r == HttpStatus::BadRequest
            && final(store)@ == old(store)@ && final(notifier).sent() == old(notifier).sent(),
        // the call can only append rows of its own, never edit or drop
        old(store)@.subscribers.is_prefix_of(final(store)@.subscribers),
        old(store)@.tokens.is_prefix_of(final(store)@.tokens),
        // a subscriber already confirmed stays confirmed
        forall|id: u128|
            subscriber_status(old(store)@, id) == Some(SubscriberStatus::Confirmed)
                ==> subscriber_status(final(store)@, id) == Some(SubscriberStatus::Confirmed),
        // a report of success pins what was written and sent: one pending
        // row, its token row, one delivered confirmation email
        r == HttpStatus::Success ==> exists|id: u128, tok: Seq<char>|
            valid_token(tok) && final(store)@ == with_pending(
                old(store)@,
                id,
                form.email@,
                form.name@,
                now,
                tok,
            ) && final(notifier).sent() == old(notifier).sent().push(
                confirmation_event(form.email@, base_url@, tok, true),
            ),
{
    let subscription_token = generate_subscription_token();
    let subscriber_id = new_subscriber_id();
    let ghost pre = store@;
    let r = subscribe_core(
        store,
        notifier,
        base_url,
        form,
        subscriber_id,
        &subscription_token,
        now,
    );
    proof {
        if store@ == pre {
            assert(pre.subscribers.is_prefix_of(store@.subscribers));
            assert(pre.tokens.is_prefix_of(store@.tokens));
        } else {
            let m2 = with_pending(
                pre,
                subscriber_id,
                form.email@,
                form.name@,
                now,
                subscription_token@,
            );
            assert(store@ == m2);
            assert(pre.subscribers.is_prefix_of(m2.subscribers));
            assert(pre.tokens.is_prefix_of(m2.tokens));
            assert forall|id: u128|
                subscriber_status(pre, id) == Some(SubscriberStatus::Confirmed) implies
                subscriber_status(store@, id) == Some(SubscriberStatus::Confirmed) by {
                assert(id_taken(pre, id));
                lemma_with_pending_preserves_status(
                    pre,
                    subscriber_id,
                    form.email@,
                    form.name@,
                    now,
                    subscription_token@,
                    id,
                );
            }
        }
    }
    r
}

} // verus!
