use zero2prod::admin_newsletters::handle_publish_as;
use zero2prod::newsletters::get_confirmed_subscribers;
use zero2prod::store::NewsletterIssueId;
use zero2prod::store::Store;
use zero2prod::store::SubscriberStatus;
use zero2prod::subscriptions::generate_subscription_token;
use zero2prod::subscriptions::store_token;
use zero2prod::subscriptions::ApplicationBaseUrl;
use zero2prod::subscriptions::subscriptions;
use zero2prod::subscriptions::subscriptions_as;
use zero2prod::subscriptions::SubscribeError;
use zero2prod::subscriptions_confirm::confirm;
use zero2prod::subscriptions_confirm::ConfirmError;
use zero2prod::subscriptions_confirm::Parameters;

#[test]
fn subscribe_persists_the_new_subscriber_pending_confirmation() {
    let mut store = Store::new();
    let (response, mail) = subscriptions_as(
        &mut store,
        "ursula_le_guin@gmail.com".to_string(),
        "le guin".to_string(),
        "https://newsletter.example",
        1,
        "token-1".to_string(),
        0,
    )
    .unwrap();
    assert_eq!(response.status, 200);
    assert_eq!(store.subscriptions.len(), 1);
    assert_eq!(store.subscriptions[0].email, "ursula_le_guin@gmail.com");
    assert_eq!(store.subscriptions[0].name, "le guin");
    assert_eq!(store.subscriptions[0].status, SubscriberStatus::PendingConfirmation);
    assert_eq!(store.tokens.len(), 1);
    assert_eq!(store.tokens[0].token, "token-1");
    assert_eq!(store.tokens[0].subscriber_id, 1);

    // The confirmation email carries the link built from base URL and token.
    assert_eq!(mail.recipient.as_str(), "ursula_le_guin@gmail.com");
    assert_eq!(mail.subject, "Welcome!");
    let link = "https://newsletter.example/subscriptions/confirm?subscription_token=token-1";
    assert_eq!(
        mail.html_body,
        format!(
            "Welcome to our newsletter!<br />Click <a href=\"{}\">here</a> to confirm your subscription.",
            link
        )
    );
    assert_eq!(
        mail.text_body,
        format!("Welcome to our newsletter!\nVisit {} to confirm your subscription.", link)
    );
}

#[test]
fn subscribe_rejects_invalid_form_data() {
    let mut store = Store::new();
    let e = subscriptions_as(
        &mut store,
        "definitely-not-an-email".to_string(),
        "Ursula".to_string(),
        "https://x",
        1,
        "t".to_string(),
        0,
    )
    .unwrap_err();
    assert_eq!(e.status_code(), 400);
    match e {
        SubscribeError::ValidationError(m) => {
            assert_eq!(m, "definitely-not-an-email is not a valid subscriber email")
        }
        SubscribeError::UnexpectedError(_) => panic!("expected a validation error"),
    }
    assert_eq!(store.subscriptions.len(), 0);
    assert_eq!(store.tokens.len(), 0);
}

#[test]
fn subscribing_twice_with_one_email_is_a_storage_conflict() {
    let mut store = Store::new();
    subscriptions_as(
        &mut store,
        "a@x.com".to_string(),
        "A".to_string(),
        "https://x",
        1,
        "t1".to_string(),
        0,
    )
    .unwrap();
    let e = subscriptions_as(
        &mut store,
        "a@x.com".to_string(),
        "A".to_string(),
        "https://x",
        2,
        "t2".to_string(),
        0,
    )
    .unwrap_err();
    assert_eq!(e.status_code(), 500);
    assert_eq!(store.subscriptions.len(), 1);
    assert_eq!(store.tokens.len(), 1);
}

#[test]
fn subscribe_with_generated_identifiers_succeeds() {
    let mut store = Store::new();
    let base_url = ApplicationBaseUrl("https://x".to_string());
    let (response, _mail) = subscriptions(
        &mut store,
        "a@x.com".to_string(),
        "A".to_string(),
        &base_url,
    )
    .unwrap();
    assert_eq!(response.status, 200);
    assert_eq!(store.subscriptions.len(), 1);
    assert_eq!(store.tokens.len(), 1);
}

#[test]
fn confirmation_link_confirms_the_subscriber() {
    let mut store = Store::new();
    subscriptions_as(
        &mut store,
        "a@x.com".to_string(),
        "A".to_string(),
        "https://x",
        1,
        "tok".to_string(),
        0,
    )
    .unwrap();
    assert_eq!(store.subscriptions[0].status, SubscriberStatus::PendingConfirmation);

    let response = confirm(
        &mut store,
        &Parameters { subscription_token: "tok".to_string() },
    )
    .unwrap();
    assert_eq!(response.status, 200);
    assert_eq!(store.subscriptions[0].status, SubscriberStatus::Confirmed);

    // Confirming twice is harmless.
    confirm(&mut store, &Parameters { subscription_token: "tok".to_string() }).unwrap();
    assert_eq!(store.subscriptions[0].status, SubscriberStatus::Confirmed);
}

#[test]
fn confirmations_with_unknown_token_are_rejected() {
    let mut store = Store::new();
    let e = confirm(
        &mut store,
        &Parameters { subscription_token: "nope".to_string() },
    )
    .unwrap_err();
    assert_eq!(e.status_code(), 401);
    assert_eq!(
        e.message(),
        "There is no subscriber associated with the provided token"
    );
    match e {
        ConfirmError::UnknownToken => {}
        ConfirmError::UnexpectedError(_) => panic!("expected an unknown token"),
    }
}

#[test]
fn newsletters_are_not_delivered_to_unconfirmed_subscribers() {
    let mut store = Store::new();
    subscriptions_as(
        &mut store,
        "a@x.com".to_string(),
        "A".to_string(),
        "https://x",
        1,
        "ta".to_string(),
        0,
    )
    .unwrap();
    subscriptions_as(
        &mut store,
        "b@x.com".to_string(),
        "B".to_string(),
        "https://x",
        2,
        "tb".to_string(),
        0,
    )
    .unwrap();
    confirm(&mut store, &Parameters { subscription_token: "ta".to_string() }).unwrap();

    handle_publish_as(
        &mut store,
        7,
        "T",
        "<p>h</p>",
        "t",
        "k".to_string(),
        NewsletterIssueId::new(1),
        0,
    )
    .unwrap();
    // Only the confirmed subscriber gets a delivery task.
    assert_eq!(store.queue.len(), 1);
    assert_eq!(store.queue[0].subscriber_email, "a@x.com");
}

#[test]
fn storing_a_duplicate_token_is_reported() {
    let mut store = Store::new();
    store_token(&mut store, 1, &"tok".to_string()).unwrap();
    let e = store_token(&mut store, 2, &"tok".to_string()).unwrap_err();
    assert_eq!(
        e.message(),
        "A database error has occurred while trying to store a subscription token"
    );
    assert_eq!(store.tokens.len(), 1);
}

#[test]
fn generated_tokens_are_32_alphanumeric_characters() {
    let token = generate_subscription_token();
    assert_eq!(token.chars().count(), 32);
    assert!(token.chars().all(|c| c.is_ascii_alphanumeric()));
}

#[test]
fn confirmed_subscriber_listing_classifies_addresses() {
    let mut store = Store::new();
    store.subscriptions.push(zero2prod::store::Subscriber {
        id: 1,
        email: "a@x.com".to_string(),
        name: "A".to_string(),
        status: SubscriberStatus::Confirmed,
        subscribed_at: 0,
    });
    store.subscriptions.push(zero2prod::store::Subscriber {
        id: 2,
        email: "broken".to_string(),
        name: "B".to_string(),
        status: SubscriberStatus::Confirmed,
        subscribed_at: 0,
    });
    store.subscriptions.push(zero2prod::store::Subscriber {
        id: 3,
        email: "c@x.com".to_string(),
        name: "C".to_string(),
        status: SubscriberStatus::PendingConfirmation,
        subscribed_at: 0,
    });
    let listed = get_confirmed_subscribers(&store);
    assert_eq!(listed.len(), 2);
    assert_eq!(listed[0].as_ref().unwrap().email.as_str(), "a@x.com");
    assert_eq!(
        listed[1].as_ref().unwrap_err(),
        "broken is not a valid subscriber email"
    );
}
