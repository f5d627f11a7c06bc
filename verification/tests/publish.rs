use zero2prod::admin_newsletters::enqueue_delivery_task;
use zero2prod::admin_newsletters::handle_publish;
use zero2prod::admin_newsletters::handle_publish_as;
use zero2prod::admin_newsletters::insert_newsletter_issue_as;
use zero2prod::idempotency::get_saved_response;
use zero2prod::idempotency::rollback;
use zero2prod::idempotency::save_response;
use zero2prod::idempotency::try_processing;
use zero2prod::idempotency::IdempotencyError;
use zero2prod::idempotency::NextAction;
use zero2prod::idempotency_key::IdempotencyKey;
use zero2prod::response::health_check;
use zero2prod::store::NewsletterIssueId;
use zero2prod::store::Store;
use zero2prod::store::Subscriber;
use zero2prod::store::SubscriberStatus;
use zero2prod::utils::HandlerError;

fn store_with_subscribers() -> Store {
    let mut store = Store::new();
    store.subscriptions.push(Subscriber {
        id: 1,
        email: "a@x.com".to_string(),
        name: "A".to_string(),
        status: SubscriberStatus::Confirmed,
        subscribed_at: 0,
    });
    store.subscriptions.push(Subscriber {
        id: 2,
        email: "b@x.com".to_string(),
        name: "B".to_string(),
        status: SubscriberStatus::PendingConfirmation,
        subscribed_at: 0,
    });
    store
}

#[test]
fn publish_scenario_with_replay_and_single_task() {
    let mut store = store_with_subscribers();

    // Publish with key "abc": a redirect whose body confirms acceptance.
    let r1 = handle_publish_as(
        &mut store,
        7,
        "Newsletter title",
        "<p>Newsletter body as HTML</p>",
        "Newsletter body as plain text",
        "abc".to_string(),
        NewsletterIssueId::new(42),
        1000,
    )
    .unwrap();
    assert_eq!(r1.status, 303);
    assert_eq!(r1.headers.len(), 1);
    assert_eq!(r1.headers[0].name, "Location");
    assert_eq!(r1.headers[0].value, b"/admin/newsletters".to_vec());
    assert_eq!(r1.body, b"accepted".to_vec());

    // Replay of the same key, even with another payload: byte-identical
    // response, and still exactly one issue.
    let r2 = handle_publish_as(
        &mut store,
        7,
        "Another title",
        "<p>other</p>",
        "other",
        "abc".to_string(),
        NewsletterIssueId::new(43),
        2000,
    )
    .unwrap();
    assert!(r1.matches(&r2));
    assert_eq!(store.issues.len(), 1);
    assert_eq!(store.issues[0].title, "Newsletter title");

    // Exactly one delivery task was created, for the confirmed subscriber.
    assert_eq!(store.queue.len(), 1);
    assert_eq!(store.queue[0].subscriber_email, "a@x.com");
    assert_eq!(store.queue[0].issue_id, NewsletterIssueId::new(42));
}

#[test]
fn publish_with_random_identifier_succeeds() {
    let mut store = store_with_subscribers();
    let r = handle_publish(&mut store, 7, "T", "<p>h</p>", "t", "key-1".to_string()).unwrap();
    assert_eq!(r.status, 303);
    assert_eq!(store.issues.len(), 1);
    assert_eq!(store.queue.len(), 1);
}

#[test]
fn invalid_idempotency_key_is_a_client_error() {
    let mut store = store_with_subscribers();
    let e = handle_publish_as(
        &mut store,
        7,
        "T",
        "<p>h</p>",
        "t",
        String::new(),
        NewsletterIssueId::new(1),
        0,
    )
    .unwrap_err();
    match e {
        HandlerError::BadRequest(m) => assert_eq!(m, "The idempotency key cannot be empty"),
        HandlerError::InternalServerError(_) => panic!("expected a client error"),
    }
    assert_eq!(store.issues.len(), 0);
    assert_eq!(store.idempotency.len(), 0);

    let e = handle_publish_as(
        &mut store,
        7,
        "T",
        "<p>h</p>",
        "t",
        "k".repeat(51),
        NewsletterIssueId::new(1),
        0,
    )
    .unwrap_err();
    match e {
        HandlerError::BadRequest(m) => {
            assert_eq!(m, "The idempotency key must be shorter than 50 characters")
        }
        HandlerError::InternalServerError(_) => panic!("expected a client error"),
    }
}

#[test]
fn issue_id_collision_rolls_the_whole_transaction_back() {
    let mut store = store_with_subscribers();
    handle_publish_as(
        &mut store,
        7,
        "T",
        "<p>h</p>",
        "t",
        "first".to_string(),
        NewsletterIssueId::new(9),
        0,
    )
    .unwrap();
    assert_eq!(store.issues.len(), 1);
    let queue_before = store.queue.len();

    // A second publish under a fresh key but a colliding identifier fails
    // and leaves nothing behind: the key becomes claimable again.
    let e = handle_publish_as(
        &mut store,
        7,
        "U",
        "<p>u</p>",
        "u",
        "second".to_string(),
        NewsletterIssueId::new(9),
        5,
    )
    .unwrap_err();
    match e {
        HandlerError::InternalServerError(m) => {
            assert_eq!(m, "a unique constraint was violated")
        }
        HandlerError::BadRequest(_) => panic!("expected a server error"),
    }
    assert_eq!(store.issues.len(), 1);
    assert_eq!(store.queue.len(), queue_before);
    assert_eq!(store.idempotency.len(), 1);
    let key = IdempotencyKey::try_from("second".to_string()).unwrap();
    assert!(get_saved_response(&store, &key, 7).is_none());
}

#[test]
fn concurrent_claims_of_one_key_are_isolated() {
    let mut store = store_with_subscribers();
    let key = IdempotencyKey::try_from("race".to_string()).unwrap();

    // The first caller wins the claim.
    let tx = match try_processing(&mut store, &key, 7, 0).unwrap() {
        NextAction::StartProcessing(tx) => tx,
        NextAction::ReturnSavedResponse(_) => panic!("the key was fresh"),
    };

    // While the claim is open, a concurrent caller cannot claim it again.
    let e = try_processing(&mut store, &key, 7, 1).unwrap_err();
    assert_eq!(e, IdempotencyError::SavedResponseNotFound);
    assert_eq!(e.message(), "Saved response not found");

    // Once the winner completes, the loser replays the stored response.
    let mut tx = tx;
    insert_newsletter_issue_as(&mut tx, NewsletterIssueId::new(5), "T", "<p>h</p>", "t", 0);
    enqueue_delivery_task(&store.subscriptions, &mut tx, NewsletterIssueId::new(5));
    let stored = save_response(&mut store, tx, &key, 7, health_check()).unwrap();
    match try_processing(&mut store, &key, 7, 2).unwrap() {
        NextAction::ReturnSavedResponse(replayed) => assert!(stored.matches(&replayed)),
        NextAction::StartProcessing(_) => panic!("the key was taken"),
    }
}

#[test]
fn rollback_after_staged_writes_leaves_no_trace() {
    let mut store = store_with_subscribers();
    let key = IdempotencyKey::try_from("doomed".to_string()).unwrap();

    let mut tx = match try_processing(&mut store, &key, 7, 0).unwrap() {
        NextAction::StartProcessing(tx) => tx,
        NextAction::ReturnSavedResponse(_) => panic!("the key was fresh"),
    };
    insert_newsletter_issue_as(&mut tx, NewsletterIssueId::new(5), "T", "<p>h</p>", "t", 0);
    enqueue_delivery_task(&store.subscriptions, &mut tx, NewsletterIssueId::new(5));

    // The simulated fault after the staged writes: the transaction is
    // discarded whole. No issue, no tasks, no idempotency record persist.
    rollback(&mut store, tx);
    assert_eq!(store.issues.len(), 0);
    assert_eq!(store.queue.len(), 0);
    assert_eq!(store.idempotency.len(), 0);
    assert!(get_saved_response(&store, &key, 7).is_none());

    // The key is claimable again: a fresh attempt succeeds.
    let r = handle_publish_as(
        &mut store,
        7,
        "T",
        "<p>h</p>",
        "t",
        "doomed".to_string(),
        NewsletterIssueId::new(5),
        0,
    );
    assert!(r.is_ok());
    assert_eq!(store.issues.len(), 1);
}

#[test]
fn keys_are_scoped_to_the_acting_user() {
    let mut store = store_with_subscribers();
    handle_publish_as(
        &mut store,
        7,
        "T",
        "<p>h</p>",
        "t",
        "abc".to_string(),
        NewsletterIssueId::new(1),
        0,
    )
    .unwrap();
    // Another user with the same key publishes a second issue.
    handle_publish_as(
        &mut store,
        8,
        "T",
        "<p>h</p>",
        "t",
        "abc".to_string(),
        NewsletterIssueId::new(2),
        0,
    )
    .unwrap();
    assert_eq!(store.issues.len(), 2);
}
