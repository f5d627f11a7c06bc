use zero2prod::admin_newsletters::handle_publish_as;
use zero2prod::delivery_worker::delete_task;
use zero2prod::delivery_worker::dequeue_task;
use zero2prod::delivery_worker::get_issue;
use zero2prod::delivery_worker::iteration_delay_millis;
use zero2prod::delivery_worker::release_task;
use zero2prod::delivery_worker::try_execute_task;
use zero2prod::delivery_worker::EmailTransport;
use zero2prod::delivery_worker::ExecutionResult;
use zero2prod::delivery_worker::TransportError;
use zero2prod::delivery_worker::WorkerError;
use zero2prod::domain::EmailAddress;
use zero2prod::store::NewsletterIssueId;
use zero2prod::store::Store;
use zero2prod::store::Subscriber;
use zero2prod::store::SubscriberStatus;

struct RecordingTransport {
    sent: Vec<(String, String, String, String)>,
    succeed: bool,
}

impl EmailTransport for RecordingTransport {
    fn send_email(
        &mut self,
        to: &EmailAddress,
        subject: &str,
        html_body: &str,
        text_body: &str,
    ) -> Result<(), TransportError> {
        self.sent.push((
            to.as_str().to_string(),
            subject.to_string(),
            html_body.to_string(),
            text_body.to_string(),
        ));
        if self.succeed {
            Ok(())
        } else {
            Err(TransportError { message: "connection reset".to_string() })
        }
    }
}

struct UnreachableTransport;

impl EmailTransport for UnreachableTransport {
    fn send_email(
        &mut self,
        _to: &EmailAddress,
        _subject: &str,
        _html_body: &str,
        _text_body: &str,
    ) -> Result<(), TransportError> {
        panic!("the transport must not be invoked for an invalid recipient");
    }
}

fn store_with_confirmed(emails: &[&str]) -> Store {
    let mut store = Store::new();
    for (i, email) in emails.iter().enumerate() {
        store.subscriptions.push(Subscriber {
            id: i as u128,
            email: (*email).to_string(),
            name: format!("S{}", i),
            status: SubscriberStatus::Confirmed,
            subscribed_at: 0,
        });
    }
    store
}

fn publish_one(store: &mut Store, issue_id: u128) {
    handle_publish_as(
        store,
        7,
        "Newsletter title",
        "<p>Newsletter body as HTML</p>",
        "Newsletter body as plain text",
        format!("key-{}", issue_id),
        NewsletterIssueId::new(issue_id),
        0,
    )
    .unwrap();
}

#[test]
fn successful_delivery_empties_the_queue() {
    let mut store = store_with_confirmed(&["a@x.com"]);
    publish_one(&mut store, 1);
    assert_eq!(store.queue.len(), 1);

    let mut transport = RecordingTransport { sent: Vec::new(), succeed: true };
    let r = try_execute_task(&mut store, &mut transport).unwrap();
    assert_eq!(r, ExecutionResult::TaskCompleted);
    assert_eq!(store.queue.len(), 0);
    assert_eq!(transport.sent.len(), 1);
    assert_eq!(transport.sent[0].0, "a@x.com");
    assert_eq!(transport.sent[0].1, "Newsletter title");
    assert_eq!(transport.sent[0].2, "<p>Newsletter body as HTML</p>");
    assert_eq!(transport.sent[0].3, "Newsletter body as plain text");

    // The queue is now empty: the next iteration reports it.
    let r = try_execute_task(&mut store, &mut transport).unwrap();
    assert_eq!(r, ExecutionResult::EmptyQueue);
    assert_eq!(transport.sent.len(), 1);
}

#[test]
fn invalid_recipient_is_deleted_without_a_delivery_attempt() {
    let mut store = store_with_confirmed(&["not-an-email"]);
    publish_one(&mut store, 1);
    assert_eq!(store.queue.len(), 1);

    let mut transport = UnreachableTransport;
    let r = try_execute_task(&mut store, &mut transport).unwrap();
    assert_eq!(r, ExecutionResult::TaskCompleted);
    assert_eq!(store.queue.len(), 0);
}

#[test]
fn transient_transport_failure_keeps_the_task_queued() {
    let mut store = store_with_confirmed(&["a@x.com"]);
    publish_one(&mut store, 1);

    let mut transport = RecordingTransport { sent: Vec::new(), succeed: false };
    let r = try_execute_task(&mut store, &mut transport);
    match r {
        Err(WorkerError::DeliveryFailed(e)) => assert_eq!(e.message, "connection reset"),
        Ok(_) => panic!("the delivery must fail"),
    }
    // The task stays in the queue, unlocked, for the next poll.
    assert_eq!(store.queue.len(), 1);
    assert!(!store.queue[0].locked);

    // A later poll with a healthy transport delivers and consumes it.
    let mut transport = RecordingTransport { sent: Vec::new(), succeed: true };
    let r = try_execute_task(&mut store, &mut transport).unwrap();
    assert_eq!(r, ExecutionResult::TaskCompleted);
    assert_eq!(store.queue.len(), 0);
}

#[test]
fn concurrent_claims_return_distinct_rows() {
    let mut store = store_with_confirmed(&["a@x.com", "b@x.com", "c@x.com"]);
    publish_one(&mut store, 1);
    assert_eq!(store.queue.len(), 3);

    // Three concurrent claimants each receive a different row.
    let t1 = dequeue_task(&mut store).unwrap();
    let t2 = dequeue_task(&mut store).unwrap();
    let t3 = dequeue_task(&mut store).unwrap();
    assert_ne!((t1.0, t1.1.clone()), (t2.0, t2.1.clone()));
    assert_ne!((t1.0, t1.1.clone()), (t3.0, t3.1.clone()));
    assert_ne!((t2.0, t2.1.clone()), (t3.0, t3.1.clone()));

    // With every row claimed, a fourth claim finds nothing.
    assert!(dequeue_task(&mut store).is_none());

    // Releasing one row makes exactly that row claimable again.
    release_task(&mut store, t2.0, &t2.1);
    let t4 = dequeue_task(&mut store).unwrap();
    assert_eq!((t4.0, t4.1), (t2.0, t2.1));

    // Deleting a claimed row consumes it for good.
    delete_task(&mut store, t1.0, &t1.1);
    assert_eq!(store.queue.len(), 2);
}

#[test]
fn get_issue_returns_the_stored_content() {
    let mut store = store_with_confirmed(&["a@x.com"]);
    publish_one(&mut store, 1);
    let issue = get_issue(&store, NewsletterIssueId::new(1)).unwrap();
    assert_eq!(issue.title, "Newsletter title");
    assert_eq!(issue.content_html, "<p>Newsletter body as HTML</p>");
    assert_eq!(issue.content_text, "Newsletter body as plain text");
    assert!(get_issue(&store, NewsletterIssueId::new(2)).is_none());
}

#[test]
fn worker_delays_follow_the_retry_policy() {
    assert_eq!(iteration_delay_millis(&Ok(ExecutionResult::TaskCompleted)), 0);
    assert_eq!(iteration_delay_millis(&Ok(ExecutionResult::EmptyQueue)), 10000);
    let failed: Result<ExecutionResult, WorkerError> = Err(WorkerError::DeliveryFailed(
        TransportError { message: "x".to_string() },
    ));
    assert_eq!(iteration_delay_millis(&failed), 1000);
}
