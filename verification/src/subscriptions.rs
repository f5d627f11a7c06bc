//! The subscribe flow.
//!
//! A new subscriber is validated, stored in `pending_confirmation`
//! status together with a fresh subscription token, and handed a
//! confirmation email carrying the link that will confirm the
//! subscription. The subscriber is written and the token stored as one
//! unit: on any conflict nothing is recorded.

use vstd::prelude::*;

use crate::admin_newsletters::fresh_uuid_u128;
use crate::admin_newsletters::now_timestamp_millis;
use crate::domain::is_valid_email;
use crate::domain::name_is_valid;
use crate::domain::EmailAddress;
use crate::domain::NewSubscriber;
use crate::response::empty_response_model;
use crate::response::CapturedResponse;
use crate::store::lemma_subscriber_email_index;
use crate::store::lemma_subscriber_index;
use crate::store::lemma_token_index;
use crate::store::subscriber_email_index;
use crate::store::subscriber_index;
use crate::store::subscribers_unique;
use crate::store::token_index;
use crate::store::tokens_unique;
use crate::store::StorageError;
use crate::store::Store;
use crate::store::StoreModel;
use crate::store::Subscriber;
use crate::store::SubscriberModel;
use crate::store::SubscriberStatus;
use crate::store::SubscriptionToken;
use crate::store::TokenModel;

verus! {

/// An error of the subscribe flow: a rejected form (status 400) or a
/// storage conflict (status 500).
#[derive(Debug)]
pub enum SubscribeError {
    ValidationError(String),
    UnexpectedError(String),
}

/// Mathematical form of a subscribe error.
#[verifier::ext_equal]
pub enum SubscribeErrorModel {
    ValidationError(Seq<char>),
    UnexpectedError(Seq<char>),
}

impl View for SubscribeError {
    type V = SubscribeErrorModel;

    open spec fn view(&self) -> SubscribeErrorModel {
        match self {
            SubscribeError::ValidationError(m) => SubscribeErrorModel::ValidationError(m@),
            SubscribeError::UnexpectedError(m) => SubscribeErrorModel::UnexpectedError(m@),
        }
    }
}

impl SubscribeError {
    /// The HTTP status code this error surfaces as.
    pub fn status_code(&self) -> (r: u16)
        ensures
            self@ is ValidationError ==> r == 400,
            self@ is UnexpectedError ==> r == 500,
    {
        match self {
            SubscribeError::ValidationError(_) => 400,
            SubscribeError::UnexpectedError(_) => 500,
        }
    }
}

/// The subscription row a subscribe writes: pending confirmation.
pub open spec fn pending_subscriber(
    id: u128,
    email: Seq<char>,
    name: Seq<char>,
    now: i64,
) -> SubscriberModel {
    SubscriberModel { id, email, name, status: SubscriberStatus::PendingConfirmation, subscribed_at: now }
}

/// Save a new subscriber under the given identifier, in
/// `pending_confirmation` status. A subscriber identifier or email that
/// is already stored is a unique-constraint conflict.
pub fn insert_subscriber_as(
    store: &mut Store,
    new_subscriber: &NewSubscriber,
    subscriber_id: u128,
    now: i64,
) -> (r: Result<u128, StorageError>)
    requires
        old(store).wf(),
    ensures
        final(store).wf(),
        ({
            let subs = old(store)@.subscriptions;
            let email = new_subscriber.email@;
            match r {
                Ok(id) => {
                    &&& id == subscriber_id
                    &&& subscriber_index(subs, subscriber_id) == -1
                    &&& subscriber_email_index(subs, email) == -1
                    &&& final(store)@.subscriptions == subs.push(
                        pending_subscriber(subscriber_id, email, new_subscriber.name@, now),
                    )
                    &&& only_subscriptions_changed(old(store)@, final(store)@)
                },
                Err(e) => {
                    &&& subscriber_index(subs, subscriber_id) >= 0 || subscriber_email_index(
                        subs,
                        email,
                    ) >= 0
                    &&& e == StorageError::UniqueViolation
                    &&& *final(store) == *old(store)
                },
            }
        }),
{
    let ghost subs = store@.subscriptions;
    let n = store.subscriptions.len();
    let mut i: usize = 0;
    while i < n
        invariant
            *store == *old(store),
            old(store).wf(),
            n == store.subscriptions.len(),
            i <= n,
            subs == store@.subscriptions,
            forall|j: int|
                0 <= j < i ==> subs[j].id != subscriber_id && subs[j].email
                    != new_subscriber.email@,
        decreases n - i,
    {
        let row = &store.subscriptions[i];
        if row.id == subscriber_id || new_subscriber.email.eq_string(&row.email) {
            proof {
                lemma_subscriber_index(subs, subscriber_id);
                lemma_subscriber_email_index(subs, new_subscriber.email@);
                assert(subs[i as int].id == subscriber_id || subs[i as int].email
                    == new_subscriber.email@);
            }
            return Err(StorageError::UniqueViolation);
        }
        i = i + 1;
    }
    proof {
        lemma_subscriber_index(subs, subscriber_id);
        lemma_subscriber_email_index(subs, new_subscriber.email@);
    }
    let row = Subscriber {
        id: subscriber_id,
        email: String::from_str(new_subscriber.email.as_str()),
        name: String::from_str(new_subscriber.name.as_str()),
        status: SubscriberStatus::PendingConfirmation,
        subscribed_at: now,
    };
    store.subscriptions.push(row);
    proof {
        assert(store@.subscriptions =~= subs.push(
            pending_subscriber(subscriber_id, new_subscriber.email@, new_subscriber.name@, now),
        ));
        assert(subscribers_unique(store@.subscriptions)) by {
            let post = store@.subscriptions;
            assert forall|a: int, b: int| 0 <= a < b < post.len() implies post[a].id != post[b].id
                && post[a].email != post[b].email by {
                if b < subs.len() {
                    assert(subs[a].id != subs[b].id && subs[a].email != subs[b].email);
                } else {
                    assert(subs[a].id != subscriber_id && subs[a].email != new_subscriber.email@);
                }
            }
        }
    }
    Ok(subscriber_id)
}

/// Save a new subscriber under a freshly generated identifier.
pub fn insert_subscriber(store: &mut Store, new_subscriber: &NewSubscriber, now: i64) -> (r: Result<
    u128,
    StorageError,
>)
    requires
        old(store).wf(),
    ensures
        final(store).wf(),
        ({
            let subs = old(store)@.subscriptions;
            let email = new_subscriber.email@;
            match r {
                Ok(id) => {
                    &&& subscriber_index(subs, id) == -1
                    &&& subscriber_email_index(subs, email) == -1
                    &&& final(store)@.subscriptions == subs.push(
                        pending_subscriber(id, email, new_subscriber.name@, now),
                    )
                    &&& only_subscriptions_changed(old(store)@, final(store)@)
                },
                Err(_) => *final(store) == *old(store),
            }
        }),
{
    let id = fresh_uuid_u128();
    insert_subscriber_as(store, new_subscriber, id, now)
}

/// Everything but the subscriptions table is untouched.
pub open spec fn only_subscriptions_changed(pre: StoreModel, post: StoreModel) -> bool {
    &&& post.idempotency == pre.idempotency
    &&& post.issues == pre.issues
    &&& post.queue == pre.queue
    &&& post.tokens == pre.tokens
}

/// Everything but the tokens table is untouched.
pub open spec fn only_tokens_changed(pre: StoreModel, post: StoreModel) -> bool {
    &&& post.idempotency == pre.idempotency
    &&& post.issues == pre.issues
    &&& post.queue == pre.queue
    &&& post.subscriptions == pre.subscriptions
}

/// Whether a character is an ASCII letter or digit.
pub open spec fn is_alphanumeric_char(c: char) -> bool {
    ('0' <= c <= '9') || ('A' <= c <= 'Z') || ('a' <= c <= 'z')
}

/// Relies on rand's `Alphanumeric` distribution sampled from
/// `thread_rng`: one random byte among `a-z`, `A-Z`, `0-9`.
#[verifier::external_body]
fn sample_alphanumeric() -> (c: u8)
    ensures
        (48 <= c <= 57) || (65 <= c <= 90) || (97 <= c <= 122),
{
    rand::Rng::sample(&mut rand::thread_rng(), rand::distributions::Alphanumeric)
}

/// Relies on `String::push`: appends exactly one character.
#[verifier::external_body]
fn push_char(s: &mut String, c: char)
    ensures
        final(s)@ == old(s)@.push(c),
{
    s.push(c);
}

/// Generate a pseudo-random subscription token: 32 alphanumeric
/// characters.
pub fn generate_subscription_token() -> (r: String)
    ensures
        r@.len() == 32,
        forall|i: int| 0 <= i < r@.len() ==> is_alphanumeric_char(r@[i]),
{
    let mut s = String::new();
    let mut i: usize = 0;
    while i < 32
        invariant
            i <= 32,
            s@.len() == i,
            forall|j: int| 0 <= j < i ==> is_alphanumeric_char(s@[j]),
        decreases 32 - i,
    {
        let b = sample_alphanumeric();
        let c = b as char;
        assert(is_alphanumeric_char(c));
        push_char(&mut s, c);
        i = i + 1;
    }
    s
}

/// A storage conflict met while storing a subscription token.
#[derive(Debug)]
pub struct StoreTokenError(pub StorageError);

impl StoreTokenError {
    /// A human-readable description.
    pub fn message(&self) -> (r: &'static str)
        ensures
            r@
                == "A database error has occurred while trying to store a subscription token"@,
    {
        "A database error has occurred while trying to store a subscription token"
    }
}

/// Store a subscription token for a subscriber. A token string that is
/// already stored is a unique-constraint conflict.
pub fn store_token(store: &mut Store, subscriber_id: u128, subscription_token: &String) -> (r:
    Result<(), StoreTokenError>)
    requires
        old(store).wf(),
    ensures
        final(store).wf(),
        ({
            let toks = old(store)@.tokens;
            match r {
                Ok(_) => {
                    &&& token_index(toks, subscription_token@) == -1
                    &&& final(store)@.tokens == toks.push(
                        TokenModel { token: subscription_token@, subscriber_id },
                    )
                    &&& only_tokens_changed(old(store)@, final(store)@)
                },
                Err(e) => {
                    &&& token_index(toks, subscription_token@) >= 0
                    &&& e.0 == StorageError::UniqueViolation
                    &&& *final(store) == *old(store)
                },
            }
        }),
{
    let ghost toks = store@.tokens;
    let n = store.tokens.len();
    let mut i: usize = 0;
    while i < n
        invariant
            *store == *old(store),
            old(store).wf(),
            n == store.tokens.len(),
            i <= n,
            toks == store@.tokens,
            forall|j: int| 0 <= j < i ==> toks[j].token != subscription_token@,
        decreases n - i,
    {
        let row = &store.tokens[i];
        if row.token == *subscription_token {
            proof {
                lemma_token_index(toks, subscription_token@);
                assert(toks[i as int].token == subscription_token@);
            }
            return Err(StoreTokenError(StorageError::UniqueViolation));
        }
        i = i + 1;
    }
    proof {
        lemma_token_index(toks, subscription_token@);
    }
    let row = SubscriptionToken { token: subscription_token.clone(), subscriber_id };
    store.tokens.push(row);
    proof {
        assert(store@.tokens =~= toks.push(TokenModel { token: subscription_token@, subscriber_id }));
        assert(tokens_unique(store@.tokens)) by {
            let post = store@.tokens;
            assert forall|a: int, b: int| 0 <= a < b < post.len() implies post[a].token
                != post[b].token by {
                if b < toks.len() {
                    assert(toks[a].token != toks[b].token);
                } else {
                    assert(toks[a].token != subscription_token@);
                }
            }
        }
    }
    Ok(())
}

/// The public base URL confirmation links are built against.
#[derive(Debug)]
pub struct ApplicationBaseUrl(pub String);

/// A confirmation email, ready for the transport: recipient, subject and
/// both bodies.
#[derive(Debug)]
pub struct ConfirmationEmail {
    pub recipient: EmailAddress,
    pub subject: String,
    pub html_body: String,
    pub text_body: String,
}

/// The confirmation link sent to a new subscriber.
pub open spec fn confirmation_link(base_url: Seq<char>, token: Seq<char>) -> Seq<char> {
    base_url + "/subscriptions/confirm?subscription_token="@ + token
}

/// The HTML body of the confirmation email.
pub open spec fn confirmation_html(link: Seq<char>) -> Seq<char> {
    "Welcome to our newsletter!<br />Click <a href=\""@ + link
        + "\">here</a> to confirm your subscription."@
}

/// The plain-text body of the confirmation email.
pub open spec fn confirmation_text(link: Seq<char>) -> Seq<char> {
    "Welcome to our newsletter!\nVisit "@ + link + " to confirm your subscription."@
}

/// Compose the confirmation email for a new subscriber: a welcome
/// subject and two bodies that carry the confirmation link.
pub fn confirmation_email(
    new_subscriber: NewSubscriber,
    base_url: &str,
    subscription_token: &str,
) -> (r: ConfirmationEmail)
    ensures
        r.recipient@ == new_subscriber.email@,
        r.subject@ == "Welcome!"@,
        r.html_body@ == confirmation_html(confirmation_link(base_url@, subscription_token@)),
        r.text_body@ == confirmation_text(confirmation_link(base_url@, subscription_token@)),
{
    let mut link = String::from_str(base_url);
    link.append("/subscriptions/confirm?subscription_token=");
    link.append(subscription_token);

    let mut html_body = String::from_str("Welcome to our newsletter!<br />Click <a href=\"");
    html_body.append(link.as_str());
    html_body.append("\">here</a> to confirm your subscription.");

    let mut text_body = String::from_str("Welcome to our newsletter!\nVisit ");
    text_body.append(link.as_str());
    text_body.append(" to confirm your subscription.");

    ConfirmationEmail {
        recipient: new_subscriber.email,
        subject: String::from_str("Welcome!"),
        html_body,
        text_body,
    }
}

/// The exact transition of one subscribe request.
pub open spec fn subscribe_spec(
    pre: StoreModel,
    post: StoreModel,
    email: Seq<char>,
    name: Seq<char>,
    subscriber_id: u128,
    token: Seq<char>,
    now: i64,
    r: Result<u16, SubscribeErrorModel>,
) -> bool {
    if !is_valid_email(email) || !name_is_valid(name) {
        // Rejected form: no storage access.
        &&& post == pre
        &&& r matches Err(SubscribeErrorModel::ValidationError(_))
    } else if token_index(pre.tokens, token) >= 0 || subscriber_index(
        pre.subscriptions,
        subscriber_id,
    ) >= 0 || subscriber_email_index(pre.subscriptions, email) >= 0 {
        // A storage conflict rolls the whole write back.
        &&& post == pre
        &&& r matches Err(SubscribeErrorModel::UnexpectedError(_))
    } else {
        &&& post.subscriptions == pre.subscriptions.push(
            pending_subscriber(subscriber_id, email, name, now),
        )
        &&& post.tokens == pre.tokens.push(TokenModel { token, subscriber_id })
        &&& post.idempotency == pre.idempotency
        &&& post.issues == pre.issues
        &&& post.queue == pre.queue
        &&& r == Result::<u16, SubscribeErrorModel>::Ok(200)
    }
}

/// Handle one subscribe request under the given identifier and token:
/// the deterministic core of `subscriptions`. On success the subscriber
/// is stored pending confirmation, the token is stored, and the composed
/// confirmation email is returned for the caller to send together with
/// the 200 response.
pub fn subscriptions_as(
    store: &mut Store,
    email: String,
    name: String,
    base_url: &str,
    subscriber_id: u128,
    subscription_token: String,
    now: i64,
) -> (r: Result<(CapturedResponse, ConfirmationEmail), SubscribeError>)
    requires
        old(store).wf(),
    ensures
        final(store).wf(),
        subscribe_spec(
            old(store)@,
            final(store)@,
            email@,
            name@,
            subscriber_id,
            subscription_token@,
            now,
            subscribe_result_model(&r),
        ),
        ({
            match r {
                Ok((resp, mail)) => {
                    &&& resp@ == empty_response_model(200)
                    &&& mail.recipient@ == email@
                    &&& mail.subject@ == "Welcome!"@
                    &&& mail.html_body@ == confirmation_html(
                        confirmation_link(base_url@, subscription_token@),
                    )
                    &&& mail.text_body@ == confirmation_text(
                        confirmation_link(base_url@, subscription_token@),
                    )
                },
                Err(_) => true,
            }
        }),
{
    let ghost pre = store@;

    // Parse the form data into a validated new subscriber.
    let new_subscriber = match NewSubscriber::try_from(email, name) {
        Ok(s) => s,
        Err(e) => {
            return Err(SubscribeError::ValidationError(e));
        },
    };

    // The token must be storable, or the whole write rolls back; check
    // before touching the subscriptions table so nothing partial remains.
    let token_taken = token_exists(store, &subscription_token);
    if token_taken {
        return Err(
            SubscribeError::UnexpectedError(
                String::from_str("Failed to store confirmation token in the database"),
            ),
        );
    }

    // Insert the new subscriber, pending confirmation.
    match insert_subscriber_as(store, &new_subscriber, subscriber_id, now) {
        Ok(_) => {},
        Err(_) => {
            return Err(
                SubscribeError::UnexpectedError(
                    String::from_str("Failed to insert new subscriber in the database"),
                ),
            );
        },
    }

    // Store the confirmation token.
    match store_token(store, subscriber_id, &subscription_token) {
        Ok(_) => {},
        Err(_) => {
            proof {
                assert(false);
            }
            return Err(
                SubscribeError::UnexpectedError(
                    String::from_str("Failed to store confirmation token in the database"),
                ),
            );
        },
    }

    // Compose the confirmation email for the caller to send.
    let mail = confirmation_email(new_subscriber, base_url, subscription_token.as_str());
    let response = CapturedResponse { status: 200, headers: Vec::new(), body: Vec::new() };
    proof {
        assert(response@ =~= empty_response_model(200));
    }
    Ok((response, mail))
}

/// A subscribe result, viewed mathematically: the response's status code
/// or the error.
pub open spec fn subscribe_result_model(
    r: &Result<(CapturedResponse, ConfirmationEmail), SubscribeError>,
) -> Result<u16, SubscribeErrorModel> {
    match r {
        Ok((resp, _)) => Ok(resp.status),
        Err(e) => Err(e@),
    }
}

/// Whether the token string is already stored.
fn token_exists(store: &Store, subscription_token: &String) -> (r: bool)
    ensures
        r == (token_index(store@.tokens, subscription_token@) >= 0),
{
    let ghost toks = store@.tokens;
    let n = store.tokens.len();
    let mut i: usize = 0;
    while i < n
        invariant
            n == store.tokens.len(),
            i <= n,
            toks == store@.tokens,
            forall|j: int| 0 <= j < i ==> toks[j].token != subscription_token@,
        decreases n - i,
    {
        let row = &store.tokens[i];
        if row.token == *subscription_token {
            proof {
                lemma_token_index(toks, subscription_token@);
                assert(toks[i as int].token == subscription_token@);
            }
            return true;
        }
        i = i + 1;
    }
    proof {
        lemma_token_index(toks, subscription_token@);
    }
    false
}

/// Handle one subscribe request: validate the form, store the subscriber
/// pending confirmation under a fresh identifier with a fresh token, and
/// hand back the 200 response and the confirmation email to send.
pub fn subscriptions(
    store: &mut Store,
    email: String,
    name: String,
    base_url: &ApplicationBaseUrl,
) -> (r: Result<(CapturedResponse, ConfirmationEmail), SubscribeError>)
    requires
        old(store).wf(),
    ensures
        final(store).wf(),
        exists|subscriber_id: u128, token: Seq<char>, now: i64|
            subscribe_spec(
                old(store)@,
                final(store)@,
                email@,
                name@,
                subscriber_id,
                token,
                now,
                subscribe_result_model(&r),
            ),
{
    let subscriber_id = fresh_uuid_u128();
    let subscription_token = generate_subscription_token();
    let now = now_timestamp_millis();
    let ghost token_view = subscription_token@;
    let r = subscriptions_as(
        store,
        email,
        name,
        base_url.0.as_str(),
        subscriber_id,
        subscription_token,
        now,
    );
    proof {
        assert(subscribe_spec(
            old(store)@,
            store@,
            email@,
            name@,
            subscriber_id,
            token_view,
            now,
            subscribe_result_model(&r),
        ));
    }
    r
}

} // verus!
