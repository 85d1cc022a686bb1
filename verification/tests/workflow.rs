use zero2prod::domain::FormData;
use zero2prod::notify::FakeNotifier;
use zero2prod::response::HttpStatus;
use zero2prod::store::{StoreFaults, SubscriberStatus, SubscriptionStore};
use zero2prod::subscriptions::{subscribe, subscribe_core};
use zero2prod::subscriptions_confirm::{confirm, Parameters};

const NOW: u64 = 1_700_000_000;
const TOKEN: &str = "AAAAAAAAAAAAAAAAAAAAAAAAA";

fn base_url() -> String {
    String::from("https://newsletter.example.com")
}

fn alice_form() -> FormData {
    FormData {
        name: String::from("Alice"),
        email: String::from("alice@example.com"),
    }
}

#[test]
fn subscribe_writes_a_pending_row_and_sends_one_confirmation_email() {
    let mut store = SubscriptionStore::new();
    let mut notifier = FakeNotifier::new();
    let status = subscribe_core(
        &mut store,
        &mut notifier,
        &base_url(),
        alice_form(),
        1,
        &String::from(TOKEN),
        NOW,
    );
    assert_eq!(status.code(), 200);
    assert_eq!(store.subscriber_count(), 1);
    assert_eq!(store.token_count(), 1);
    assert_eq!(store.status_of(1), Some(SubscriberStatus::PendingConfirmation));
    assert_eq!(notifier.call_count(), 1);
    let call = notifier.call_at(0);
    assert_eq!(call.recipient, "alice@example.com");
    assert_eq!(call.subject, "Welcome");
    let link = format!(
        "https://newsletter.example.com/subscriptions/confirm?subscription_token={}",
        TOKEN
    );
    assert!(call.html_body.contains(&link));
    assert!(call.text_body.contains(&link));
    assert!(call.delivered);
}

#[test]
fn subscribe_rejects_a_bad_email_and_writes_nothing() {
    let mut store = SubscriptionStore::new();
    let mut notifier = FakeNotifier::new();
    let status = subscribe(
        &mut store,
        &mut notifier,
        &base_url(),
        FormData {
            name: String::from("Alice"),
            email: String::from("not-an-email"),
        },
        NOW,
    );
    assert_eq!(status.code(), 400);
    assert_eq!(store.subscriber_count(), 0);
    assert_eq!(store.token_count(), 0);
    assert_eq!(notifier.call_count(), 0);
}

#[test]
fn subscribe_rejects_a_bad_name_and_writes_nothing() {
    let mut store = SubscriptionStore::new();
    let mut notifier = FakeNotifier::new();
    let status = subscribe(
        &mut store,
        &mut notifier,
        &base_url(),
        FormData {
            name: String::from("Alice/"),
            email: String::from("alice@example.com"),
        },
        NOW,
    );
    assert_eq!(status, HttpStatus::BadRequest);
    assert_eq!(store.subscriber_count(), 0);
    assert_eq!(notifier.call_count(), 0);
}

#[test]
fn a_failed_notification_keeps_the_committed_rows() {
    let mut store = SubscriptionStore::new();
    let mut notifier = FakeNotifier::new();
    notifier.set_fail(true);
    let status = subscribe_core(
        &mut store,
        &mut notifier,
        &base_url(),
        alice_form(),
        1,
        &String::from(TOKEN),
        NOW,
    );
    assert_eq!(status.code(), 500);
    assert_eq!(store.subscriber_count(), 1);
    assert_eq!(store.token_count(), 1);
    assert_eq!(store.status_of(1), Some(SubscriberStatus::PendingConfirmation));
    assert_eq!(notifier.call_count(), 1);
    assert!(!notifier.call_at(0).delivered);
}

#[test]
fn confirming_the_issued_token_marks_the_subscriber_confirmed() {
    let mut store = SubscriptionStore::new();
    let mut notifier = FakeNotifier::new();
    let status = subscribe_core(
        &mut store,
        &mut notifier,
        &base_url(),
        alice_form(),
        1,
        &String::from(TOKEN),
        NOW,
    );
    assert_eq!(status, HttpStatus::Success);
    let status = confirm(
        &mut store,
        &Parameters {
            subscription_token: String::from(TOKEN),
        },
    );
    assert_eq!(status.code(), 200);
    assert_eq!(store.status_of(1), Some(SubscriberStatus::Confirmed));
}

#[test]
fn the_full_round_trip_works_with_a_generated_token() {
    let mut store = SubscriptionStore::new();
    let mut notifier = FakeNotifier::new();
    let status = subscribe(&mut store, &mut notifier, &base_url(), alice_form(), NOW);
    assert_eq!(status, HttpStatus::Success);
    assert_eq!(notifier.call_count(), 1);
    let text = notifier.call_at(0).text_body.clone();
    let marker = "subscription_token=";
    let start = text.find(marker).unwrap() + marker.len();
    let token: String = text[start..].chars().take(25).collect();
    assert_eq!(token.chars().count(), 25);
    let status = confirm(
        &mut store,
        &Parameters {
            subscription_token: token.clone(),
        },
    );
    assert_eq!(status, HttpStatus::Success);
    let id = store
        .get_subscriber_id_from_token(token.as_str())
        .unwrap()
        .unwrap();
    assert_eq!(store.status_of(id), Some(SubscriberStatus::Confirmed));
}

#[test]
fn confirming_an_unknown_token_is_not_found_and_mutates_nothing() {
    let mut store = SubscriptionStore::new();
    let mut notifier = FakeNotifier::new();
    subscribe_core(
        &mut store,
        &mut notifier,
        &base_url(),
        alice_form(),
        1,
        &String::from(TOKEN),
        NOW,
    );
    let status = confirm(
        &mut store,
        &Parameters {
            subscription_token: String::from("not-a-real-token"),
        },
    );
    assert_eq!(status.code(), 404);
    assert_eq!(store.status_of(1), Some(SubscriberStatus::PendingConfirmation));
    assert_eq!(store.subscriber_count(), 1);
}

#[test]
fn confirming_twice_through_the_workflow_succeeds_both_times() {
    let mut store = SubscriptionStore::new();
    let mut notifier = FakeNotifier::new();
    subscribe_core(
        &mut store,
        &mut notifier,
        &base_url(),
        alice_form(),
        1,
        &String::from(TOKEN),
        NOW,
    );
    let params = Parameters {
        subscription_token: String::from(TOKEN),
    };
    assert_eq!(confirm(&mut store, &params), HttpStatus::Success);
    assert_eq!(store.status_of(1), Some(SubscriberStatus::Confirmed));
    assert_eq!(confirm(&mut store, &params), HttpStatus::Success);
    assert_eq!(store.status_of(1), Some(SubscriberStatus::Confirmed));
}

#[test]
fn a_confirmed_subscriber_stays_confirmed_through_later_operations() {
    let mut store = SubscriptionStore::new();
    let mut notifier = FakeNotifier::new();
    subscribe_core(
        &mut store,
        &mut notifier,
        &base_url(),
        alice_form(),
        1,
        &String::from(TOKEN),
        NOW,
    );
    let params = Parameters {
        subscription_token: String::from(TOKEN),
    };
    assert_eq!(confirm(&mut store, &params), HttpStatus::Success);
    let bob = FormData {
        name: String::from("Bob"),
        email: String::from("bob@example.com"),
    };
    assert_eq!(
        subscribe(&mut store, &mut notifier, &base_url(), bob, NOW),
        HttpStatus::Success
    );
    assert_eq!(confirm(&mut store, &params), HttpStatus::Success);
    assert_eq!(store.status_of(1), Some(SubscriberStatus::Confirmed));
}

#[test]
fn a_transient_redeem_failure_is_a_server_error() {
    let mut store = SubscriptionStore::new();
    let mut notifier = FakeNotifier::new();
    subscribe_core(
        &mut store,
        &mut notifier,
        &base_url(),
        alice_form(),
        1,
        &String::from(TOKEN),
        NOW,
    );
    let mut faults = StoreFaults::none();
    faults.redeem = true;
    store.set_faults(faults);
    let status = confirm(
        &mut store,
        &Parameters {
            subscription_token: String::from(TOKEN),
        },
    );
    assert_eq!(status.code(), 500);
    store.set_faults(StoreFaults::none());
    assert_eq!(store.status_of(1), Some(SubscriberStatus::PendingConfirmation));
}

#[test]
fn a_duplicate_subscription_is_reported_as_bad_request() {
    let mut store = SubscriptionStore::new();
    let mut notifier = FakeNotifier::new();
    assert_eq!(
        subscribe(&mut store, &mut notifier, &base_url(), alice_form(), NOW),
        HttpStatus::Success
    );
    assert_eq!(
        subscribe(&mut store, &mut notifier, &base_url(), alice_form(), NOW),
        HttpStatus::BadRequest
    );
    assert_eq!(store.subscriber_count(), 1);
    assert_eq!(notifier.call_count(), 1);
}
