//! The subscription confirmation flow.
//!
//! A confirmation link carries the subscription token; confirming looks
//! the token up and marks the matching subscriber as confirmed. Only
//! confirmed subscribers receive newsletter issues.

use vstd::prelude::*;

use crate::response::empty_response_model;
use crate::response::CapturedResponse;
use crate::store::lemma_subscriber_index;
use crate::store::lemma_token_index;
use crate::store::subscriber_index;
use crate::store::subscribers_unique;
use crate::store::token_index;
use crate::store::Store;
use crate::store::StoreModel;
use crate::store::Subscriber;
use crate::store::SubscriberModel;
use crate::store::SubscriberStatus;
use vstd::pervasive::VecAdditionalExecFns;

verus! {

/// The query parameters of a confirmation request.
#[derive(Debug)]
pub struct Parameters {
    pub subscription_token: String,
}

/// An error of the confirmation flow: an unknown token (status 401) or a
/// storage failure (status 500).
#[derive(Debug)]
pub enum ConfirmError {
    UnknownToken,
    UnexpectedError(String),
}

/// Mathematical form of a confirmation error.
#[verifier::ext_equal]
pub enum ConfirmErrorModel {
    UnknownToken,
    UnexpectedError(Seq<char>),
}

impl View for ConfirmError {
    type V = ConfirmErrorModel;

    open spec fn view(&self) -> ConfirmErrorModel {
        match self {
            ConfirmError::UnknownToken => ConfirmErrorModel::UnknownToken,
            ConfirmError::UnexpectedError(m) => ConfirmErrorModel::UnexpectedError(m@),
        }
    }
}

impl ConfirmError {
    /// The HTTP status code this error surfaces as.
    pub fn status_code(&self) -> (r: u16)
        ensures
            self@ is UnknownToken ==> r == 401,
            self@ is UnexpectedError ==> r == 500,
    {
        match self {
            ConfirmError::UnknownToken => 401,
            ConfirmError::UnexpectedError(_) => 500,
        }
    }

    /// A human-readable description.
    pub fn message(&self) -> (r: &str)
        ensures
            self@ is UnknownToken ==> r@
                == "There is no subscriber associated with the provided token"@,
            self@ matches ConfirmErrorModel::UnexpectedError(m) ==> r@ == m,
    {
        match self {
            ConfirmError::UnknownToken => "There is no subscriber associated with the provided token",
            ConfirmError::UnexpectedError(m) => m.as_str(),
        }
    }
}

/// Look up the subscriber the token was issued for.
pub fn get_subscriber_id_from_token(store: &Store, subscription_token: &String) -> (r: Option<u128>)
    ensures
        ({
            let toks = store@.tokens;
            let idx = token_index(toks, subscription_token@);
            match r {
                Some(id) => idx >= 0 && toks[idx].subscriber_id == id,
                None => idx == -1,
            }
        }),
{
    let ghost toks = store@.tokens;
    let n = store.tokens.len();
    let mut i: usize = 0;
    while i < n
        invariant
            n == store.tokens.len(),
            i <= n,
            toks == store@.tokens,
            forall|j: int| 0 <= j < i ==> toks[j].token != subscription_token@,
        decreases n - i,
    {
        let row = &store.tokens[i];
        if row.token == *subscription_token {
            proof {
                lemma_token_index(toks, subscription_token@);
                assert(toks[i as int].token == subscription_token@);
            }
            return Some(row.subscriber_id);
        }
        i = i + 1;
    }
    proof {
        lemma_token_index(toks, subscription_token@);
    }
    None
}

/// The subscriptions table with one subscriber marked as confirmed.
pub open spec fn confirm_subscriber_model(
    subs: Seq<SubscriberModel>,
    at: int,
) -> Seq<SubscriberModel> {
    subs.update(at, (SubscriberModel { status: SubscriberStatus::Confirmed, ..subs[at] }))
}

/// Mark a subscriber as confirmed. Marking an unknown identifier changes
/// nothing, as an update of zero rows would.
pub fn confirm_subscriber(store: &mut Store, subscriber_id: u128)
    requires
        old(store).wf(),
    ensures
        final(store).wf(),
        ({
            let subs = old(store)@.subscriptions;
            let idx = subscriber_index(subs, subscriber_id);
            &&& idx >= 0 ==> final(store)@.subscriptions == confirm_subscriber_model(subs, idx)
            &&& idx == -1 ==> *final(store) == *old(store)
            &&& crate::subscriptions::only_subscriptions_changed(old(store)@, final(store)@)
        }),
{
    let ghost subs = store@.subscriptions;
    let n = store.subscriptions.len();
    let mut i: usize = 0;
    while i < n
        invariant
            *store == *old(store),
            old(store).wf(),
            n == store.subscriptions.len(),
            i <= n,
            subs == store@.subscriptions,
            forall|j: int| 0 <= j < i ==> subs[j].id != subscriber_id,
        decreases n - i,
    {
        let row = &store.subscriptions[i];
        if row.id == subscriber_id {
            proof {
                lemma_subscriber_index(subs, subscriber_id);
                assert(subs[i as int].id == subscriber_id);
            }
            let confirmed = Subscriber {
                id: row.id,
                email: row.email.clone(),
                name: row.name.clone(),
                status: SubscriberStatus::Confirmed,
                subscribed_at: row.subscribed_at,
            };
            store.subscriptions.set(i, confirmed);
            proof {
                assert(store@.subscriptions =~= confirm_subscriber_model(subs, i as int));
                assert(subscribers_unique(store@.subscriptions)) by {
                    let post = store@.subscriptions;
                    assert forall|a: int, b: int| 0 <= a < b < post.len() implies post[a].id
                        != post[b].id && post[a].email != post[b].email by {
                        assert(post[a].id == subs[a].id && post[a].email == subs[a].email);
                        assert(post[b].id == subs[b].id && post[b].email == subs[b].email);
                    }
                }
            }
            return ;
        }
        i = i + 1;
    }
    proof {
        lemma_subscriber_index(subs, subscriber_id);
    }
}

/// The exact transition of one confirmation request.
pub open spec fn confirm_spec(
    pre: StoreModel,
    post: StoreModel,
    token: Seq<char>,
    r: Result<u16, ConfirmErrorModel>,
) -> bool {
    let tidx = token_index(pre.tokens, token);
    if tidx == -1 {
        &&& post == pre
        &&& r == Result::<u16, ConfirmErrorModel>::Err(ConfirmErrorModel::UnknownToken)
    } else {
        let sid = pre.tokens[tidx].subscriber_id;
        let sidx = subscriber_index(pre.subscriptions, sid);
        &&& sidx >= 0 ==> post.subscriptions == confirm_subscriber_model(pre.subscriptions, sidx)
        &&& sidx == -1 ==> post.subscriptions == pre.subscriptions
        &&& post.idempotency == pre.idempotency
        &&& post.issues == pre.issues
        &&& post.queue == pre.queue
        &&& post.tokens == pre.tokens
        &&& r == Result::<u16, ConfirmErrorModel>::Ok(200)
    }
}

/// Handle one confirmation request: resolve the token to a subscriber
/// and mark that subscriber as confirmed. An unknown token is rejected
/// and nothing changes.
pub fn confirm(store: &mut Store, parameters: &Parameters) -> (r: Result<
    CapturedResponse,
    ConfirmError,
>)
    requires
        old(store).wf(),
    ensures
        final(store).wf(),
        confirm_spec(
            old(store)@,
            final(store)@,
            parameters.subscription_token@,
            confirm_result_model(&r),
        ),
{
    let subscriber_id = match get_subscriber_id_from_token(store, &parameters.subscription_token) {
        Some(id) => id,
        None => {
            return Err(ConfirmError::UnknownToken);
        },
    };
    confirm_subscriber(store, subscriber_id);
    let response = CapturedResponse { status: 200, headers: Vec::new(), body: Vec::new() };
    proof {
        assert(response@ =~= empty_response_model(200));
    }
    Ok(response)
}

/// A confirmation result, viewed mathematically: the response's status
/// code or the error.
pub open spec fn confirm_result_model(r: &Result<CapturedResponse, ConfirmError>) -> Result<
    u16,
    ConfirmErrorModel,
> {
    match r {
        Ok(resp) => Ok(resp.status),
        Err(e) => Err(e@),
    }
}

} // verus!
