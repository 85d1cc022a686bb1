use zero2prod::domain::{FormData, NewSubscriber};
use zero2prod::store::{
    InsertPhase, StoreError, StoreFaults, SubscriberStatus, SubscriptionStore,
};

fn subscriber(name: &str, email: &str) -> NewSubscriber {
    NewSubscriber::try_from(FormData {
        name: String::from(name),
        email: String::from(email),
    })
    .unwrap()
}

const NOW: u64 = 1_700_000_000;

#[test]
fn a_new_store_is_empty() {
    let store = SubscriptionStore::new();
    assert_eq!(store.subscriber_count(), 0);
    assert_eq!(store.token_count(), 0);
}

#[test]
fn insert_pending_writes_one_subscriber_and_one_token() {
    let mut store = SubscriptionStore::new();
    let alice = subscriber("Alice", "alice@example.com");
    store
        .insert_pending(&alice, 1, "AAAAAAAAAAAAAAAAAAAAAAAAA", NOW)
        .unwrap();
    assert_eq!(store.subscriber_count(), 1);
    assert_eq!(store.token_count(), 1);
    assert_eq!(store.status_of(1), Some(SubscriberStatus::PendingConfirmation));
}

#[test]
fn insert_pending_rejects_a_duplicate_email() {
    let mut store = SubscriptionStore::new();
    let alice = subscriber("Alice", "alice@example.com");
    store
        .insert_pending(&alice, 1, "AAAAAAAAAAAAAAAAAAAAAAAAA", NOW)
        .unwrap();
    let again = subscriber("Alice again", "alice@example.com");
    let err = store
        .insert_pending(&again, 2, "BBBBBBBBBBBBBBBBBBBBBBBBB", NOW)
        .unwrap_err();
    assert_eq!(err, (InsertPhase::InsertSubscriber, StoreError::Conflict));
    assert_eq!(store.subscriber_count(), 1);
    assert_eq!(store.token_count(), 1);
}

#[test]
fn insert_pending_rejects_a_duplicate_token() {
    let mut store = SubscriptionStore::new();
    let alice = subscriber("Alice", "alice@example.com");
    store
        .insert_pending(&alice, 1, "AAAAAAAAAAAAAAAAAAAAAAAAA", NOW)
        .unwrap();
    let bob = subscriber("Bob", "bob@example.com");
    let err = store
        .insert_pending(&bob, 2, "AAAAAAAAAAAAAAAAAAAAAAAAA", NOW)
        .unwrap_err();
    assert_eq!(err, (InsertPhase::StoreToken, StoreError::Conflict));
    assert_eq!(store.subscriber_count(), 1);
    assert_eq!(store.token_count(), 1);
}

#[test]
fn a_failed_token_write_leaves_no_subscriber_behind() {
    let mut store = SubscriptionStore::new();
    let mut faults = StoreFaults::none();
    faults.store_token = true;
    store.set_faults(faults);
    let alice = subscriber("Alice", "alice@example.com");
    let err = store
        .insert_pending(&alice, 1, "AAAAAAAAAAAAAAAAAAAAAAAAA", NOW)
        .unwrap_err();
    assert_eq!(err, (InsertPhase::StoreToken, StoreError::Transient));
    assert_eq!(store.subscriber_count(), 0);
    assert_eq!(store.token_count(), 0);
}

#[test]
fn a_failed_commit_leaves_no_row_behind() {
    let mut store = SubscriptionStore::new();
    let mut faults = StoreFaults::none();
    faults.commit = true;
    store.set_faults(faults);
    let alice = subscriber("Alice", "alice@example.com");
    let err = store
        .insert_pending(&alice, 1, "AAAAAAAAAAAAAAAAAAAAAAAAA", NOW)
        .unwrap_err();
    assert_eq!(err, (InsertPhase::Commit, StoreError::Transient));
    assert_eq!(store.subscriber_count(), 0);
    assert_eq!(store.token_count(), 0);
}

#[test]
fn redeeming_a_known_token_yields_its_subscriber() {
    let mut store = SubscriptionStore::new();
    let alice = subscriber("Alice", "alice@example.com");
    store
        .insert_pending(&alice, 7, "TTTTTTTTTTTTTTTTTTTTTTTTT", NOW)
        .unwrap();
    assert_eq!(
        store.get_subscriber_id_from_token("TTTTTTTTTTTTTTTTTTTTTTTTT"),
        Ok(Some(7))
    );
}

#[test]
fn redeeming_an_unknown_token_is_not_found_not_an_error() {
    let store = SubscriptionStore::new();
    assert_eq!(store.get_subscriber_id_from_token("not-a-real-token"), Ok(None));
}

#[test]
fn redeeming_fails_transiently_when_the_store_is_down() {
    let mut store = SubscriptionStore::new();
    let mut faults = StoreFaults::none();
    faults.redeem = true;
    store.set_faults(faults);
    assert_eq!(
        store.get_subscriber_id_from_token("TTTTTTTTTTTTTTTTTTTTTTTTT"),
        Err(StoreError::Transient)
    );
}

#[test]
fn confirming_twice_succeeds_both_times_and_stays_confirmed() {
    let mut store = SubscriptionStore::new();
    let alice = subscriber("Alice", "alice@example.com");
    store
        .insert_pending(&alice, 7, "TTTTTTTTTTTTTTTTTTTTTTTTT", NOW)
        .unwrap();
    assert_eq!(store.confirm_subscriber(7), Ok(()));
    assert_eq!(store.status_of(7), Some(SubscriberStatus::Confirmed));
    assert_eq!(store.confirm_subscriber(7), Ok(()));
    assert_eq!(store.status_of(7), Some(SubscriberStatus::Confirmed));
}

#[test]
fn confirming_an_unknown_id_succeeds_silently_and_changes_nothing() {
    let mut store = SubscriptionStore::new();
    let alice = subscriber("Alice", "alice@example.com");
    store
        .insert_pending(&alice, 7, "TTTTTTTTTTTTTTTTTTTTTTTTT", NOW)
        .unwrap();
    assert_eq!(store.confirm_subscriber(99), Ok(()));
    assert_eq!(store.status_of(7), Some(SubscriberStatus::PendingConfirmation));
    assert_eq!(store.status_of(99), None);
}

#[test]
fn a_transient_confirm_failure_changes_nothing() {
    let mut store = SubscriptionStore::new();
    let alice = subscriber("Alice", "alice@example.com");
    store
        .insert_pending(&alice, 7, "TTTTTTTTTTTTTTTTTTTTTTTTT", NOW)
        .unwrap();
    let mut faults = StoreFaults::none();
    faults.confirm = true;
    store.set_faults(faults);
    assert_eq!(store.confirm_subscriber(7), Err(StoreError::Transient));
    store.set_faults(StoreFaults::none());
    assert_eq!(store.status_of(7), Some(SubscriberStatus::PendingConfirmation));
}

#[test]
fn a_failed_begin_is_transient_and_writes_nothing() {
    let mut store = SubscriptionStore::new();
    let mut faults = StoreFaults::none();
    faults.begin = true;
    store.set_faults(faults);
    let alice = subscriber("Alice", "alice@example.com");
    let err = store
        .insert_pending(&alice, 1, "AAAAAAAAAAAAAAAAAAAAAAAAA", NOW)
        .unwrap_err();
    assert_eq!(err, (InsertPhase::Begin, StoreError::Transient));
    assert_eq!(store.subscriber_count(), 0);
}

#[test]
fn a_failed_subscriber_write_is_transient_and_writes_nothing() {
    let mut store = SubscriptionStore::new();
    let mut faults = StoreFaults::none();
    faults.insert = true;
    store.set_faults(faults);
    let alice = subscriber("Alice", "alice@example.com");
    let err = store
        .insert_pending(&alice, 1, "AAAAAAAAAAAAAAAAAAAAAAAAA", NOW)
        .unwrap_err();
    assert_eq!(err, (InsertPhase::InsertSubscriber, StoreError::Transient));
    assert_eq!(store.subscriber_count(), 0);
    assert_eq!(store.token_count(), 0);
}
