//! The publish command handler.
//!
//! `handle_publish` answers a publish request exactly once per
//! `(user_id, idempotency_key)`: it validates the key's shape, races on
//! the idempotency claim, and — when it wins — persists the newsletter
//! issue, enqueues one delivery task per confirmed subscriber, and stores
//! the captured response, all in one atomic transaction. A replay of the
//! same key returns the stored response verbatim, with no side effects
//! re-executed. The exact transition is [`publish_spec`].

use vstd::prelude::*;

use crate::idempotency::claimed_record;
use crate::idempotency::completed_record;
use crate::idempotency::save_response;
use crate::idempotency::try_processing;
use crate::idempotency::NextAction;
use crate::idempotency::Transaction;
use crate::idempotency_key::key_is_valid;
use crate::idempotency_key::IdempotencyKey;
use crate::response::ascii_bytes;
use crate::response::e303_see_other;
use crate::response::see_other_model;
use crate::response::str_to_bytes;
use crate::response::CapturedResponse;
use crate::response::ResponseModel;
use crate::store::issue_index;
use crate::store::lemma_find_index_push;
use crate::store::lemma_record_index;
use crate::store::record_index;
use crate::store::subscribers_unique;
use crate::store::tasks_unique;
use crate::store::DeliveryTask;
use crate::store::IssueModel;
use crate::store::NewsletterIssue;
use crate::store::NewsletterIssueId;
use crate::store::RecordModel;
use crate::store::Store;
use crate::store::StoreModel;
use crate::store::Subscriber;
use crate::store::SubscriberModel;
use crate::store::SubscriberStatus;
use crate::store::TaskModel;
use crate::utils::e400_bad_request;
use crate::utils::e500_internal_server_error;
use crate::utils::HandlerError;
use crate::utils::HandlerErrorModel;

verus! {

/// Relies on uuid's `Uuid::new_v4` and `Uuid::as_u128`: a random 128-bit
/// identifier, about whose value nothing is assumed.
#[verifier::external_body]
pub(crate) fn fresh_uuid_u128() -> u128 {
    uuid::Uuid::new_v4().as_u128()
}

/// Relies on chrono's `Utc::now` and `timestamp_millis`: the clock's
/// reading, about whose value nothing is assumed.
#[verifier::external_body]
pub(crate) fn now_timestamp_millis() -> i64 {
    chrono::Utc::now().timestamp_millis()
}

/// The delivery tasks enqueued for an issue: one unlocked row per
/// subscriber in Confirmed status, in table order.
pub open spec fn confirmed_tasks(subs: Seq<SubscriberModel>, id: NewsletterIssueId) -> Seq<
    TaskModel,
>
    decreases subs.len(),
{
    if subs.len() == 0 {
        Seq::empty()
    } else {
        let rest = confirmed_tasks(subs.drop_last(), id);
        if subs.last().status is Confirmed {
            rest.push(
                TaskModel { issue_id: id, subscriber_email: subs.last().email, locked: false },
            )
        } else {
            rest
        }
    }
}

/// The subscriber a task came from: the position in the subscriptions
/// table whose confirmed subscriber produced the task at position `i`.
pub open spec fn confirmed_src(subs: Seq<SubscriberModel>, id: NewsletterIssueId, i: int) -> int
    decreases subs.len(),
{
    if subs.len() == 0 {
        0
    } else {
        let rest = confirmed_tasks(subs.drop_last(), id);
        if subs.last().status is Confirmed && i == rest.len() {
            subs.len() - 1
        } else {
            confirmed_src(subs.drop_last(), id, i)
        }
    }
}

/// The enqueued tasks all belong to the issue and are unlocked; each
/// carries the email of the confirmed subscriber it came from, in table
/// order; and — subscriber emails being unique — they are pairwise
/// distinct.
pub proof fn lemma_confirmed_tasks(subs: Seq<SubscriberModel>, id: NewsletterIssueId)
    ensures
        ({
            let r = confirmed_tasks(subs, id);
            &&& forall|i: int| 0 <= i < r.len() ==> r[i].issue_id == id && !r[i].locked
            &&& forall|i: int|
                #![trigger confirmed_src(subs, id, i)]
                0 <= i < r.len() ==> {
                    let j = confirmed_src(subs, id, i);
                    &&& 0 <= j < subs.len()
                    &&& subs[j].status is Confirmed
                    &&& subs[j].email == r[i].subscriber_email
                }
            &&& forall|i1: int, i2: int|
                0 <= i1 < i2 < r.len() ==> confirmed_src(subs, id, i1) < confirmed_src(
                    subs,
                    id,
                    i2,
                )
            &&& subscribers_unique(subs) ==> tasks_unique(r)
        }),
    decreases subs.len(),
{
    let r = confirmed_tasks(subs, id);
    if subs.len() > 0 {
        let front = subs.drop_last();
        let rf = confirmed_tasks(front, id);
        lemma_confirmed_tasks(front, id);
        assert(forall|j: int| 0 <= j < front.len() ==> front[j] == subs[j]);
        assert forall|i: int| #![trigger confirmed_src(subs, id, i)] 0 <= i < r.len() implies {
            let j = confirmed_src(subs, id, i);
            &&& 0 <= j < subs.len()
            &&& subs[j].status is Confirmed
            &&& subs[j].email == r[i].subscriber_email
        } by {
            if !(subs.last().status is Confirmed && i == rf.len()) {
                assert(confirmed_src(subs, id, i) == confirmed_src(front, id, i));
                assert(0 <= i < rf.len() && r[i] == rf[i]);
            }
        }
        assert forall|i1: int, i2: int| 0 <= i1 < i2 < r.len() implies confirmed_src(subs, id, i1)
            < confirmed_src(subs, id, i2) by {
            assert(confirmed_src(subs, id, i1) == confirmed_src(front, id, i1));
            assert(0 <= confirmed_src(front, id, i1) < front.len());
            if !(subs.last().status is Confirmed && i2 == rf.len()) {
                assert(confirmed_src(subs, id, i2) == confirmed_src(front, id, i2));
            }
        }
        if subscribers_unique(subs) {
            assert(subscribers_unique(front));
            assert forall|a: int, b: int| 0 <= a < b < r.len() implies !(r[a].issue_id
                == r[b].issue_id && r[a].subscriber_email == r[b].subscriber_email) by {
                let ja = confirmed_src(subs, id, a);
                let jb = confirmed_src(subs, id, b);
                assert(ja < jb);
                assert(subs[ja].email != subs[jb].email);
            }
        }
    }
}

/// Stage the newsletter issue in the open transaction, under the given
/// identifier.
pub fn insert_newsletter_issue_as(
    transaction: &mut Transaction,
    issue_id: NewsletterIssueId,
    title: &str,
    content_html: &str,
    content_text: &str,
    published_at: i64,
)
    requires
        old(transaction)@.issue is None,
        old(transaction)@.tasks.len() == 0,
    ensures
        final(transaction)@ == (crate::idempotency::TransactionModel {
            issue: Some(
                IssueModel {
                    issue_id,
                    title: title@,
                    content_html: content_html@,
                    content_text: content_text@,
                    published_at,
                },
            ),
            ..old(transaction)@
        }),
{
    let issue = NewsletterIssue {
        issue_id,
        title: String::from_str(title),
        content_html: String::from_str(content_html),
        content_text: String::from_str(content_text),
        published_at,
    };
    transaction.issue = Some(issue);
    proof {
        assert(transaction@ =~= crate::idempotency::TransactionModel {
            issue: Some(
                IssueModel {
                    issue_id,
                    title: title@,
                    content_html: content_html@,
                    content_text: content_text@,
                    published_at,
                },
            ),
            ..old(transaction)@
        });
    }
}

/// Stage the newsletter issue under a freshly generated identifier, and
/// return that identifier.
pub fn insert_newsletter_issue(
    transaction: &mut Transaction,
    title: &str,
    content_html: &str,
    content_text: &str,
    published_at: i64,
) -> (r: NewsletterIssueId)
    requires
        old(transaction)@.issue is None,
        old(transaction)@.tasks.len() == 0,
    ensures
        final(transaction)@ == (crate::idempotency::TransactionModel {
            issue: Some(
                IssueModel {
                    issue_id: r,
                    title: title@,
                    content_html: content_html@,
                    content_text: content_text@,
                    published_at,
                },
            ),
            ..old(transaction)@
        }),
{
    let id = NewsletterIssueId::new(fresh_uuid_u128());
    insert_newsletter_issue_as(transaction, id, title, content_html, content_text, published_at);
    id
}

/// Stage one delivery task per confirmed subscriber, selected at this
/// instant from the subscriptions table. The emails are not validated
/// here: validation is deferred to delivery time, so an unparseable
/// address cannot abort the publish.
pub fn enqueue_delivery_task(
    subscriptions: &Vec<Subscriber>,
    transaction: &mut Transaction,
    newsletter_issue_id: NewsletterIssueId,
)
    requires
        (old(transaction)@.issue matches Some(iss) && iss.issue_id == newsletter_issue_id),
        old(transaction)@.tasks.len() == 0,
        subscribers_unique(subscriptions@.map_values(|s: Subscriber| s@)),
    ensures
        final(transaction)@ == (crate::idempotency::TransactionModel {
            tasks: confirmed_tasks(
                subscriptions@.map_values(|s: Subscriber| s@),
                newsletter_issue_id,
            ),
            ..old(transaction)@
        }),
        crate::idempotency::tx_wf(final(transaction)@),
{
    let ghost subs = subscriptions@.map_values(|s: Subscriber| s@);
    let n = subscriptions.len();
    let mut i: usize = 0;
    proof {
        assert(confirmed_tasks(subs.take(0), newsletter_issue_id) =~= Seq::<TaskModel>::empty());
        assert(transaction@.tasks =~= confirmed_tasks(subs.take(0), newsletter_issue_id));
    }
    while i < n
        invariant
            n == subscriptions.len(),
            i <= n,
            subs == subscriptions@.map_values(|s: Subscriber| s@),
            transaction@ == (crate::idempotency::TransactionModel {
                tasks: confirmed_tasks(subs.take(i as int), newsletter_issue_id),
                ..old(transaction)@
            }),
        decreases n - i,
    {
        let ghost before = transaction@;
        let sub = &subscriptions[i];
        proof {
            assert(subs.take(i + 1).drop_last() =~= subs.take(i as int));
            assert(subs.take(i + 1).last() == subs[i as int]);
        }
        match sub.status {
            SubscriberStatus::Confirmed => {
                let task = DeliveryTask {
                    issue_id: newsletter_issue_id,
                    subscriber_email: sub.email.clone(),
                    locked: false,
                };
                transaction.tasks.push(task);
                proof {
                    assert(transaction@.tasks =~= confirmed_tasks(
                        subs.take(i + 1),
                        newsletter_issue_id,
                    ));
                    assert(transaction@ =~= crate::idempotency::TransactionModel {
                        tasks: confirmed_tasks(subs.take(i + 1), newsletter_issue_id),
                        ..old(transaction)@
                    });
                }
            },
            SubscriberStatus::PendingConfirmation => {
                proof {
                    assert(transaction@.tasks =~= confirmed_tasks(
                        subs.take(i + 1),
                        newsletter_issue_id,
                    ));
                }
            },
        }
        i = i + 1;
    }
    proof {
        assert(subs.take(n as int) =~= subs);
        assert(transaction@ =~= crate::idempotency::TransactionModel {
            tasks: confirmed_tasks(subs, newsletter_issue_id),
            ..old(transaction)@
        });
        lemma_confirmed_tasks(subs, newsletter_issue_id);
    }
}

/// The response a successful publish stores and returns: a 303 redirect
/// back to the newsletter form whose body confirms acceptance.
pub open spec fn accepted_response_model() -> ResponseModel {
    ResponseModel { body: ascii_bytes("accepted"@), ..see_other_model("/admin/newsletters"@) }
}

/// The Completed idempotency row a successful publish leaves behind.
pub open spec fn publish_success_record(user_id: u128, key: Seq<char>, now: i64) -> RecordModel {
    RecordModel { user_id, key, created_at: now, response: Some(accepted_response_model()) }
}

/// The message a malformed idempotency key is rejected with.
pub open spec fn key_error_message(key: Seq<char>) -> Seq<char> {
    if key.len() == 0 {
        "The idempotency key cannot be empty"@
    } else {
        "The idempotency key must be shorter than 50 characters"@
    }
}

/// The exact transition of one publish command, for every input the
/// handler accepts. `r` is the handler's result, viewed mathematically.
pub open spec fn publish_spec(
    pre: StoreModel,
    post: StoreModel,
    user_id: u128,
    key: Seq<char>,
    title: Seq<char>,
    content_html: Seq<char>,
    content_text: Seq<char>,
    issue_id: NewsletterIssueId,
    now: i64,
    r: Result<ResponseModel, HandlerErrorModel>,
) -> bool {
    let idx = record_index(pre.idempotency, user_id, key);
    if !key_is_valid(key) {
        // Client error: rejected before any storage access.
        &&& post == pre
        &&& r == Result::<ResponseModel, HandlerErrorModel>::Err(
            HandlerErrorModel::BadRequest(key_error_message(key)),
        )
    } else if idx >= 0 && pre.idempotency[idx].response is Some {
        // Replay: the stored response, verbatim, and no side effects.
        &&& post == pre
        &&& r == Result::<ResponseModel, HandlerErrorModel>::Ok(
            pre.idempotency[idx].response->Some_0,
        )
    } else if idx >= 0 {
        // Conflict in progress: the row is claimed but not yet completed.
        &&& post == pre
        &&& r == Result::<ResponseModel, HandlerErrorModel>::Err(
            HandlerErrorModel::InternalServerError("Saved response not found"@),
        )
    } else if issue_index(pre.issues, issue_id) >= 0 {
        // Storage fault: the generated identifier collides. Full rollback.
        &&& post == pre
        &&& r == Result::<ResponseModel, HandlerErrorModel>::Err(
            HandlerErrorModel::InternalServerError("a unique constraint was violated"@),
        )
    } else {
        // Success: issue, tasks and completed record appear atomically.
        &&& post.idempotency == pre.idempotency.push(publish_success_record(user_id, key, now))
        &&& post.issues == pre.issues.push(
            IssueModel { issue_id, title, content_html, content_text, published_at: now },
        )
        &&& post.queue == pre.queue + confirmed_tasks(pre.subscriptions, issue_id)
        &&& post.subscriptions == pre.subscriptions
        &&& post.tokens == pre.tokens
        &&& r == Result::<ResponseModel, HandlerErrorModel>::Ok(accepted_response_model())
    }
}

/// A handler result, viewed mathematically.
pub open spec fn result_model(r: Result<CapturedResponse, HandlerError>) -> Result<
    ResponseModel,
    HandlerErrorModel,
> {
    match r {
        Ok(resp) => Ok(resp@),
        Err(e) => Err(e@),
    }
}

/// Publish a newsletter issue under the given identifier and clock
/// reading: the deterministic core of `handle_publish`.
pub fn handle_publish_as(
    store: &mut Store,
    user_id: u128,
    title: &str,
    content_html: &str,
    content_text: &str,
    idempotency_key: String,
    issue_id: NewsletterIssueId,
    now: i64,
) -> (r: Result<CapturedResponse, HandlerError>)
    requires
        old(store).wf(),
    ensures
        final(store).wf(),
        publish_spec(
            old(store)@,
            final(store)@,
            user_id,
            idempotency_key@,
            title@,
            content_html@,
            content_text@,
            issue_id,
            now,
            result_model(r),
        ),
{
    let ghost pre = store@;
    let ghost key_view = idempotency_key@;

    // 1. Validate the key's shape; an invalid shape is a client error and
    //    no storage access occurs.
    let key = match IdempotencyKey::try_from(idempotency_key) {
        Ok(k) => k,
        Err(e) => {
            return Err(e400_bad_request(e));
        },
    };

    // 2. Race on the claim: replay if completed, conflict if in flight.
    let transaction = match try_processing(store, &key, user_id, now) {
        Ok(NextAction::ReturnSavedResponse(resp)) => {
            return Ok(resp);
        },
        Err(e) => {
            return Err(e500_internal_server_error(String::from_str(e.message())));
        },
        Ok(NextAction::StartProcessing(t)) => t,
    };
    let ghost mid = store@;

    // 3. The business write: stage the issue and its delivery tasks.
    let mut transaction = transaction;
    insert_newsletter_issue_as(
        &mut transaction,
        issue_id,
        title,
        content_html,
        content_text,
        now,
    );
    enqueue_delivery_task(&store.subscriptions, &mut transaction, issue_id);

    // 4. Build the real response, and commit it atomically with the
    //    business write.
    proof {
        reveal_strlit("/admin/newsletters");
        assert(vstd::string::is_ascii("/admin/newsletters"));
        reveal_strlit("accepted");
        assert(vstd::string::is_ascii("accepted"));
    }
    let response = e303_see_other("/admin/newsletters");
    let response = response.set_body(str_to_bytes("accepted"));
    proof {
        assert(response@ =~= accepted_response_model());
        lemma_record_index(pre.idempotency, user_id, key_view);
        lemma_find_index_push(
            pre.idempotency,
            |rec: RecordModel| rec.user_id == user_id && rec.key == key_view,
            claimed_record(user_id, key_view, now),
        );
        assert(record_index(mid.idempotency, user_id, key_view) == pre.idempotency.len());
    }
    match save_response(store, transaction, &key, user_id, response) {
        Ok(resp) => {
            proof {
                let post = store@;
                let n = pre.idempotency.len() as int;
                assert(post.idempotency =~= pre.idempotency.push(
                    publish_success_record(user_id, key_view, now),
                )) by {
                    assert(mid.idempotency[n] == claimed_record(user_id, key_view, now));
                    assert(completed_record(mid.idempotency[n], accepted_response_model())
                        == publish_success_record(user_id, key_view, now));
                }
                assert(post.issues =~= pre.issues.push(
                    IssueModel {
                        issue_id,
                        title: title@,
                        content_html: content_html@,
                        content_text: content_text@,
                        published_at: now,
                    },
                ));
                assert(post.queue =~= pre.queue + confirmed_tasks(pre.subscriptions, issue_id));
            }
            Ok(resp)
        },
        Err(e) => {
            proof {
                let post = store@;
                let n = pre.idempotency.len() as int;
                assert(post.idempotency =~= pre.idempotency) by {
                    assert(mid.idempotency.remove(n) =~= pre.idempotency);
                }
                assert(post =~~= pre);
            }
            Err(e500_internal_server_error(String::from_str(e.message())))
        },
    }
}

/// Publish a newsletter issue: validate the idempotency key, claim it,
/// persist the issue and one delivery task per confirmed subscriber, and
/// answer with the captured (or replayed) response. The issue identifier
/// and the timestamp are drawn here; everything else is exact, as
/// [`publish_spec`] states.
pub fn handle_publish(
    store: &mut Store,
    user_id: u128,
    title: &str,
    content_html: &str,
    content_text: &str,
    idempotency_key: String,
) -> (r: Result<CapturedResponse, HandlerError>)
    requires
        old(store).wf(),
    ensures
        final(store).wf(),
        exists|issue_id: NewsletterIssueId, now: i64|
            publish_spec(
                old(store)@,
                final(store)@,
                user_id,
                idempotency_key@,
                title@,
                content_html@,
                content_text@,
                issue_id,
                now,
                result_model(r),
            ),
{
    let issue_id = NewsletterIssueId::new(fresh_uuid_u128());
    let now = now_timestamp_millis();
    let r = handle_publish_as(
        store,
        user_id,
        title,
        content_html,
        content_text,
        idempotency_key,
        issue_id,
        now,
    );
    proof {
        assert(publish_spec(
            old(store)@,
            store@,
            user_id,
            idempotency_key@,
            title@,
            content_html@,
            content_text@,
            issue_id,
            now,
            result_model(r),
        ));
    }
    r
}

/// Idempotent replay: once a publish command for `(user_id, key)` has
/// succeeded, running the command again — with the same or a different
/// payload — returns a byte-identical response and changes nothing:
/// exactly one issue and one set of delivery tasks ever come from one
/// key.
pub proof fn lemma_idempotent_replay(
    s0: StoreModel,
    s1: StoreModel,
    s2: StoreModel,
    user_id: u128,
    key: Seq<char>,
    title1: Seq<char>,
    html1: Seq<char>,
    text1: Seq<char>,
    id1: NewsletterIssueId,
    now1: i64,
    title2: Seq<char>,
    html2: Seq<char>,
    text2: Seq<char>,
    id2: NewsletterIssueId,
    now2: i64,
    r1: Result<ResponseModel, HandlerErrorModel>,
    r2: Result<ResponseModel, HandlerErrorModel>,
)
    requires
        key_is_valid(key),
        record_index(s0.idempotency, user_id, key) == -1,
        publish_spec(s0, s1, user_id, key, title1, html1, text1, id1, now1, r1),
        r1 is Ok,
        publish_spec(s1, s2, user_id, key, title2, html2, text2, id2, now2, r2),
    ensures
        r2 == r1,
        s2 == s1,
        s1.issues == s0.issues.push(
            IssueModel {
                issue_id: id1,
                title: title1,
                content_html: html1,
                content_text: text1,
                published_at: now1,
            },
        ),
        s1.queue == s0.queue + confirmed_tasks(s0.subscriptions, id1),
{
    lemma_record_index(s0.idempotency, user_id, key);
    lemma_find_index_push(
        s0.idempotency,
        |rec: RecordModel| rec.user_id == user_id && rec.key == key,
        publish_success_record(user_id, key, now1),
    );
    assert(record_index(s1.idempotency, user_id, key) == s0.idempotency.len());
    assert(s1.idempotency[s0.idempotency.len() as int].response == Some(
        accepted_response_model(),
    ));
}

} // verus!
