//! The delivery worker.
//!
//! A worker iteration claims one queue row — skipping rows other workers
//! hold, so concurrent claimants each receive a distinct row — validates
//! the stored recipient address, attempts delivery through the transport,
//! and removes the row only on a terminal outcome: delivered, or a
//! permanently unusable address. A transient transport failure and a
//! storage error both leave the row for the next poll by any worker.

use vstd::prelude::*;

use crate::domain::is_valid_email;
use crate::domain::EmailAddress;
use crate::store::first_unlocked;
use crate::store::issue_index;
use crate::store::lemma_first_unlocked;
use crate::store::lemma_issue_index;
use crate::store::lemma_task_index;
use crate::store::task_index;
use crate::store::tasks_reference_issues;
use crate::store::tasks_unique;
use crate::store::DeliveryTask;
use crate::store::NewsletterIssue;
use crate::store::NewsletterIssueId;
use crate::store::Store;
use crate::store::StoreModel;
use crate::store::TaskModel;
use vstd::pervasive::VecAdditionalExecFns;

verus! {

/// What one worker iteration did with the queue.
#[derive(Clone, Copy, PartialEq, Eq, Structural, Debug)]
pub enum ExecutionResult {
    TaskCompleted,
    EmptyQueue,
}

/// A transient failure reported by the email transport.
#[derive(Debug)]
pub struct TransportError {
    pub message: String,
}

/// A failure of one worker iteration: the delivery attempt did not reach
/// a terminal outcome and the task was left in the queue.
#[derive(Debug)]
pub enum WorkerError {
    DeliveryFailed(TransportError),
}

/// The capability to attempt one delivery and report success or a
/// transient failure. The host process implements it; nothing is assumed
/// about which deliveries succeed.
pub trait EmailTransport {
    fn send_email(
        &mut self,
        to: &EmailAddress,
        subject: &str,
        html_body: &str,
        text_body: &str,
    ) -> Result<(), TransportError>;
}

/// Everything but the delivery queue is untouched.
pub open spec fn only_queue_changed(pre: StoreModel, post: StoreModel) -> bool {
    &&& post.idempotency == pre.idempotency
    &&& post.issues == pre.issues
    &&& post.subscriptions == pre.subscriptions
    &&& post.tokens == pre.tokens
}

/// Claim one task: the first row no other claimant holds, which this
/// claim then holds (its row lock is the `locked` mark). Returns `None`
/// on an empty (or fully claimed) queue.
pub fn dequeue_task(store: &mut Store) -> (r: Option<(NewsletterIssueId, String)>)
    requires
        old(store).wf(),
    ensures
        final(store).wf(),
        ({
            let q = old(store)@.queue;
            let fu = first_unlocked(q);
            match r {
                None => fu == -1 && *final(store) == *old(store),
                Some(t) => {
                    &&& fu >= 0
                    &&& t.0 == q[fu].issue_id
                    &&& t.1@ == q[fu].subscriber_email
                    &&& !q[fu].locked
                    &&& final(store)@.queue == q.update(fu, (TaskModel { locked: true, ..q[fu] }))
                    &&& only_queue_changed(old(store)@, final(store)@)
                },
            }
        }),
{
    let ghost q = store@.queue;
    let n = store.queue.len();
    let mut i: usize = 0;
    while i < n
        invariant
            *store == *old(store),
            old(store).wf(),
            n == store.queue.len(),
            i <= n,
            q == store@.queue,
            forall|j: int| 0 <= j < i ==> q[j].locked,
        decreases n - i,
    {
        if !store.queue[i].locked {
            proof {
                lemma_first_unlocked(q);
                assert(first_unlocked(q) == i);
            }
            let row = &store.queue[i];
            let issue_id = row.issue_id;
            let email = row.subscriber_email.clone();
            let claimed = DeliveryTask {
                issue_id: row.issue_id,
                subscriber_email: row.subscriber_email.clone(),
                locked: true,
            };
            store.queue.set(i, claimed);
            proof {
                assert(store@.queue =~= q.update(i as int, (TaskModel { locked: true, ..q[i as int] })));
                lemma_queue_update_same_key_wf(old(store)@, i as int, (TaskModel { locked: true, ..q[i as int] }));
            }
            return Some((issue_id, email));
        }
        i = i + 1;
    }
    proof {
        lemma_first_unlocked(q);
    }
    None
}

/// Updating a queue row without changing its key keeps the store
/// well-formed.
proof fn lemma_queue_update_same_key_wf(pre: StoreModel, at: int, t: TaskModel)
    requires
        crate::store::model_wf(pre),
        0 <= at < pre.queue.len(),
        t.issue_id == pre.queue[at].issue_id,
        t.subscriber_email == pre.queue[at].subscriber_email,
    ensures
        tasks_unique(pre.queue.update(at, t)),
        tasks_reference_issues(pre.queue.update(at, t), pre.issues),
{
    let q2 = pre.queue.update(at, t);
    assert forall|a: int, b: int| 0 <= a < b < q2.len() implies !(q2[a].issue_id == q2[b].issue_id
        && q2[a].subscriber_email == q2[b].subscriber_email) by {
        assert(q2[a].issue_id == pre.queue[a].issue_id && q2[a].subscriber_email
            == pre.queue[a].subscriber_email);
        assert(q2[b].issue_id == pre.queue[b].issue_id && q2[b].subscriber_email
            == pre.queue[b].subscriber_email);
    }
    assert forall|i: int| 0 <= i < q2.len() implies issue_index(pre.issues, q2[i].issue_id)
        >= 0 by {
        assert(q2[i].issue_id == pre.queue[i].issue_id);
    }
}

/// Find the row for `(issue_id, email)`.
fn find_task_position(queue: &Vec<DeliveryTask>, issue_id: NewsletterIssueId, email: &String) -> (r:
    Option<usize>)
    ensures
        ({
            let m = queue@.map_values(|t: DeliveryTask| t@);
            match r {
                Some(i) => i as int == task_index(m, issue_id, email@) && i < queue.len(),
                None => task_index(m, issue_id, email@) == -1,
            }
        }),
{
    let ghost m = queue@.map_values(|t: DeliveryTask| t@);
    let n = queue.len();
    let mut i: usize = 0;
    while i < n
        invariant
            n == queue.len(),
            i <= n,
            m == queue@.map_values(|t: DeliveryTask| t@),
            forall|j: int|
                0 <= j < i ==> !(m[j].issue_id == issue_id && m[j].subscriber_email == email@),
        decreases n - i,
    {
        let row = &queue[i];
        if row.issue_id == issue_id && row.subscriber_email == *email {
            proof {
                lemma_task_index(m, issue_id, email@);
                assert(m[i as int].issue_id == issue_id && m[i as int].subscriber_email == email@);
            }
            return Some(i);
        }
        i = i + 1;
    }
    proof {
        lemma_task_index(m, issue_id, email@);
    }
    None
}

/// Delete the row for the exact composite key and commit: the terminal
/// outcome of a delivery attempt. Deleting an absent row changes nothing.
pub fn delete_task(store: &mut Store, issue_id: NewsletterIssueId, subscriber_email: &String)
    requires
        old(store).wf(),
    ensures
        final(store).wf(),
        ({
            let q = old(store)@.queue;
            let idx = task_index(q, issue_id, subscriber_email@);
            &&& idx >= 0 ==> final(store)@.queue == q.remove(idx)
            &&& idx == -1 ==> *final(store) == *old(store)
            &&& only_queue_changed(old(store)@, final(store)@)
        }),
{
    let ghost q = store@.queue;
    match find_task_position(&store.queue, issue_id, subscriber_email) {
        Some(i) => {
            store.queue.remove(i);
            proof {
                assert(store@.queue =~= q.remove(i as int));
                lemma_queue_remove_wf(old(store)@, i as int);
            }
        },
        None => {},
    }
}

/// Removing a queue row keeps the store well-formed.
proof fn lemma_queue_remove_wf(pre: StoreModel, at: int)
    requires
        crate::store::model_wf(pre),
        0 <= at < pre.queue.len(),
    ensures
        tasks_unique(pre.queue.remove(at)),
        tasks_reference_issues(pre.queue.remove(at), pre.issues),
{
    let q2 = pre.queue.remove(at);
    assert forall|a: int, b: int| 0 <= a < b < q2.len() implies !(q2[a].issue_id == q2[b].issue_id
        && q2[a].subscriber_email == q2[b].subscriber_email) by {
        let a0 = if a < at {
            a
        } else {
            a + 1
        };
        let b0 = if b < at {
            b
        } else {
            b + 1
        };
        assert(q2[a] == pre.queue[a0] && q2[b] == pre.queue[b0]);
        assert(!(pre.queue[a0].issue_id == pre.queue[b0].issue_id
            && pre.queue[a0].subscriber_email == pre.queue[b0].subscriber_email));
    }
    assert forall|i: int| 0 <= i < q2.len() implies issue_index(pre.issues, q2[i].issue_id)
        >= 0 by {
        let i0 = if i < at {
            i
        } else {
            i + 1
        };
        assert(q2[i] == pre.queue[i0]);
    }
}

/// Release a claimed row without deleting it: the claiming transaction
/// ended without a terminal outcome, so the row unlocks and stays for the
/// next claim by any worker.
pub fn release_task(store: &mut Store, issue_id: NewsletterIssueId, subscriber_email: &String)
    requires
        old(store).wf(),
    ensures
        final(store).wf(),
        ({
            let q = old(store)@.queue;
            let idx = task_index(q, issue_id, subscriber_email@);
            &&& idx >= 0 ==> final(store)@.queue == q.update(idx, (TaskModel { locked: false, ..q[idx] }))
            &&& idx == -1 ==> *final(store) == *old(store)
            &&& only_queue_changed(old(store)@, final(store)@)
        }),
{
    let ghost q = store@.queue;
    match find_task_position(&store.queue, issue_id, subscriber_email) {
        Some(i) => {
            let row = &store.queue[i];
            let unlocked = DeliveryTask {
                issue_id: row.issue_id,
                subscriber_email: row.subscriber_email.clone(),
                locked: false,
            };
            store.queue.set(i, unlocked);
            proof {
                assert(store@.queue =~= q.update(i as int, (TaskModel { locked: false, ..q[i as int] })));
                lemma_queue_update_same_key_wf(old(store)@, i as int, (TaskModel { locked: false, ..q[i as int] }));
            }
        },
        None => {},
    }
}

/// Fetch the stored content of an issue.
pub fn get_issue(store: &Store, issue_id: NewsletterIssueId) -> (r: Option<NewsletterIssue>)
    ensures
        ({
            let idx = issue_index(store@.issues, issue_id);
            match r {
                Some(issue) => idx >= 0 && issue@ == store@.issues[idx],
                None => idx == -1,
            }
        }),
{
    let ghost m = store@.issues;
    let n = store.issues.len();
    let mut i: usize = 0;
    while i < n
        invariant
            n == store.issues.len(),
            i <= n,
            m == store@.issues,
            forall|j: int| 0 <= j < i ==> m[j].issue_id != issue_id,
        decreases n - i,
    {
        let row = &store.issues[i];
        if row.issue_id == issue_id {
            proof {
                lemma_issue_index(m, issue_id);
                assert(m[i as int].issue_id == issue_id);
            }
            let issue = NewsletterIssue {
                issue_id: row.issue_id,
                title: row.title.clone(),
                content_html: row.content_html.clone(),
                content_text: row.content_text.clone(),
                published_at: row.published_at,
            };
            return Some(issue);
        }
        i = i + 1;
    }
    proof {
        lemma_issue_index(m, issue_id);
    }
    None
}

/// One worker iteration: claim a task, validate its recipient, attempt
/// delivery, and settle the row. An invalid address is a permanent
/// rejection: the task is consumed without a delivery attempt. A
/// transport failure is transient: the row is released and stays queued.
pub fn try_execute_task<T: EmailTransport>(store: &mut Store, email_client: &mut T) -> (r: Result<
    ExecutionResult,
    WorkerError,
>)
    requires
        old(store).wf(),
    ensures
        final(store).wf(),
        ({
            let q = old(store)@.queue;
            let fu = first_unlocked(q);
            &&& fu == -1 ==> r == Result::<ExecutionResult, WorkerError>::Ok(
                ExecutionResult::EmptyQueue,
            ) && *final(store) == *old(store)
            &&& fu >= 0 ==> {
                let t = q[fu];
                &&& only_queue_changed(old(store)@, final(store)@)
                &&& !is_valid_email(t.subscriber_email) ==> r == Result::<
                    ExecutionResult,
                    WorkerError,
                >::Ok(ExecutionResult::TaskCompleted) && final(store)@.queue == q.remove(fu)
                &&& is_valid_email(t.subscriber_email) ==> ((r == Result::<
                    ExecutionResult,
                    WorkerError,
                >::Ok(ExecutionResult::TaskCompleted) && final(store)@.queue == q.remove(fu)) || (
                r is Err && final(store)@.queue == q))
                &&& r is Err ==> final(store)@.queue == q && is_valid_email(t.subscriber_email)
            }
        }),
{
    let ghost pre = store@;
    let ghost fu = first_unlocked(pre.queue);

    // Claim one task, with an early return on an empty queue.
    let claimed = dequeue_task(store);
    let (issue_id, email) = match claimed {
        None => {
            return Ok(ExecutionResult::EmptyQueue);
        },
        Some(t) => t,
    };
    let ghost mid = store@;
    proof {
        lemma_first_unlocked(pre.queue);
        lemma_claimed_task_position(pre, fu);
    }

    match EmailAddress::parse(email.clone()) {
        Ok(address) => {
            // Valid address: fetch the issue content and attempt delivery.
            let issue = match get_issue(store, issue_id) {
                Some(issue) => issue,
                None => {
                    proof {
                        assert(issue_index(mid.issues, issue_id) >= 0);
                        assert(false);
                    }
                    return Ok(ExecutionResult::EmptyQueue);
                },
            };
            match email_client.send_email(
                &address,
                issue.title.as_str(),
                issue.content_html.as_str(),
                issue.content_text.as_str(),
            ) {
                Ok(_) => {
                    delete_task(store, issue_id, &email);
                    proof {
                        assert(store@.queue =~= pre.queue.remove(fu));
                    }
                    Ok(ExecutionResult::TaskCompleted)
                },
                Err(e) => {
                    // Transient failure: leave the task for the next poll.
                    release_task(store, issue_id, &email);
                    proof {
                        assert(store@.queue =~= pre.queue);
                    }
                    Err(WorkerError::DeliveryFailed(e))
                },
            }
        },
        Err(_) => {
            // Invalid address: a permanent rejection, consumed unsent.
            delete_task(store, issue_id, &email);
            proof {
                assert(store@.queue =~= pre.queue.remove(fu));
            }
            Ok(ExecutionResult::TaskCompleted)
        },
    }
}

/// After a claim, the claimed pair is found exactly at the claimed
/// position, in the claimed queue as well as in the original one.
proof fn lemma_claimed_task_position(pre: StoreModel, fu: int)
    requires
        crate::store::model_wf(pre),
        fu == first_unlocked(pre.queue),
        0 <= fu < pre.queue.len(),
    ensures
        ({
            let t = pre.queue[fu];
            let q2 = pre.queue.update(fu, (TaskModel { locked: true, ..t }));
            &&& task_index(q2, t.issue_id, t.subscriber_email) == fu
            &&& task_index(pre.queue, t.issue_id, t.subscriber_email) == fu
        }),
{
    let t = pre.queue[fu];
    let q2 = pre.queue.update(fu, (TaskModel { locked: true, ..t }));
    lemma_task_index(q2, t.issue_id, t.subscriber_email);
    lemma_task_index(pre.queue, t.issue_id, t.subscriber_email);
    let i2 = task_index(q2, t.issue_id, t.subscriber_email);
    assert(q2[fu].issue_id == t.issue_id && q2[fu].subscriber_email == t.subscriber_email);
    if i2 != fu {
        assert(0 <= i2 < q2.len());
        assert(q2[i2].issue_id == pre.queue[i2].issue_id && q2[i2].subscriber_email
            == pre.queue[i2].subscriber_email);
        let lo = if i2 < fu { i2 } else { fu };
        let hi = if i2 < fu { fu } else { i2 };
        assert(!(pre.queue[lo].issue_id == pre.queue[hi].issue_id
            && pre.queue[lo].subscriber_email == pre.queue[hi].subscriber_email));
    }
    let i1 = task_index(pre.queue, t.issue_id, t.subscriber_email);
    if i1 != fu {
        assert(0 <= i1 < pre.queue.len());
    }
}

/// Exclusive claim under concurrency: a claim marks its row as held, a
/// second concurrent claim skips held rows, so the two claims never
/// return the same row.
pub proof fn lemma_exclusive_claim(q: Seq<TaskModel>)
    requires
        tasks_unique(q),
        first_unlocked(q) >= 0,
    ensures
        ({
            let i1 = first_unlocked(q);
            let q2 = q.update(i1, (TaskModel { locked: true, ..q[i1] }));
            let i2 = first_unlocked(q2);
            &&& i2 != i1
            &&& i2 >= 0 ==> !(q2[i2].issue_id == q[i1].issue_id && q2[i2].subscriber_email
                == q[i1].subscriber_email)
        }),
{
    let i1 = first_unlocked(q);
    lemma_first_unlocked(q);
    let q2 = q.update(i1, (TaskModel { locked: true, ..q[i1] }));
    lemma_first_unlocked(q2);
    let i2 = first_unlocked(q2);
    assert(q2[i1].locked);
    if i2 >= 0 && i2 != i1 {
        assert(q2[i2].issue_id == q[i2].issue_id && q2[i2].subscriber_email
            == q[i2].subscriber_email);
        let lo = if i2 < i1 { i2 } else { i1 };
        let hi = if i2 < i1 { i1 } else { i2 };
        assert(!(q[lo].issue_id == q[hi].issue_id && q[lo].subscriber_email
            == q[hi].subscriber_email));
    }
}

/// The delay before the worker's next poll, in milliseconds: a short
/// fixed delay after a failed iteration, a long one on an empty queue,
/// none after a completed task.
pub fn iteration_delay_millis(outcome: &Result<ExecutionResult, WorkerError>) -> (r: u64)
    ensures
        outcome is Err ==> r == 1000,
        (outcome matches Ok(o) && o is EmptyQueue) ==> r == 10000,
        (outcome matches Ok(o) && o is TaskCompleted) ==> r == 0,
{
    match outcome {
        Err(_) => 1000,
        Ok(ExecutionResult::EmptyQueue) => 10000,
        Ok(ExecutionResult::TaskCompleted) => 0,
    }
}

} // verus!
