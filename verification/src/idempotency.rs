//! Idempotency persistence: claim, replay, complete.
//!
//! `try_processing` races on the insert-if-absent of a Claimed row — the
//! sole mutual-exclusion mechanism between concurrent identical publish
//! requests. The winner receives an open [`Transaction`] that stages the
//! business writes; `save_response` applies the staged issue, the staged
//! delivery tasks, and the captured response in one atomic step, while
//! `rollback` discards everything including the claim. A loser of the
//! race observes either the completed row (and replays its response
//! verbatim) or a still-pending claim (a caller-detectable anomaly).

use vstd::prelude::*;

use crate::idempotency_key::IdempotencyKey;
use crate::response::CapturedResponse;
use crate::response::ResponseModel;
use crate::store::lemma_find_index_push;
use crate::store::lemma_issue_index;
use crate::store::lemma_record_index;
use crate::store::issue_index;
use crate::store::record_index;
use crate::store::records_unique;
use crate::store::issues_unique;
use crate::store::tasks_unique;
use crate::store::tasks_reference_issues;
use crate::store::DeliveryTask;
use crate::store::NewsletterIssueId;
use crate::store::IdempotencyRecord;
use crate::store::IssueModel;
use crate::store::NewsletterIssue;
use crate::store::RecordModel;
use crate::store::StorageError;
use crate::store::Store;
use crate::store::StoreModel;
use crate::store::TaskModel;
use vstd::pervasive::VecAdditionalExecFns;

verus! {

/// An open transaction: the claim it holds and the staged business
/// writes, applied atomically by `save_response` or discarded whole by
/// `rollback`.
#[derive(Debug)]
pub struct Transaction {
    pub user_id: u128,
    pub key: IdempotencyKey,
    pub created_at: i64,
    pub issue: Option<NewsletterIssue>,
    pub tasks: Vec<DeliveryTask>,
}

/// Mathematical form of an open transaction.
#[verifier::ext_equal]
pub struct TransactionModel {
    pub user_id: u128,
    pub key: Seq<char>,
    pub created_at: i64,
    pub issue: Option<IssueModel>,
    pub tasks: Seq<TaskModel>,
}

impl View for Transaction {
    type V = TransactionModel;

    open spec fn view(&self) -> TransactionModel {
        TransactionModel {
            user_id: self.user_id,
            key: self.key@,
            created_at: self.created_at,
            issue: match self.issue {
                Some(i) => Some(i@),
                None => None,
            },
            tasks: self.tasks@.map_values(|t: DeliveryTask| t@),
        }
    }
}

/// A transaction stages at most one issue, and tasks only for that issue:
/// unlocked, one per subscriber email.
pub open spec fn tx_wf(tx: TransactionModel) -> bool {
    match tx.issue {
        Some(iss) => {
            &&& tasks_unique(tx.tasks)
            &&& forall|i: int|
                0 <= i < tx.tasks.len() ==> tx.tasks[i].issue_id == iss.issue_id
                    && !tx.tasks[i].locked
        },
        None => tx.tasks.len() == 0,
    }
}

/// The Claimed row `try_processing` inserts.
pub open spec fn claimed_record(user_id: u128, key: Seq<char>, now: i64) -> RecordModel {
    RecordModel { user_id, key, created_at: now, response: None }
}

/// The transaction handed to the winner of a claim.
pub open spec fn fresh_transaction(user_id: u128, key: Seq<char>, now: i64) -> TransactionModel {
    TransactionModel { user_id, key, created_at: now, issue: None, tasks: Seq::empty() }
}

/// A record exists for the pair and is still Claimed.
pub open spec fn has_pending_claim(idem: Seq<RecordModel>, user_id: u128, key: Seq<char>) -> bool {
    &&& record_index(idem, user_id, key) >= 0
    &&& idem[record_index(idem, user_id, key)].response is None
}

/// The record, completed with the captured response.
pub open spec fn completed_record(rec: RecordModel, resp: ResponseModel) -> RecordModel {
    RecordModel { response: Some(resp), ..rec }
}

/// Whether applying the staged writes can succeed: the staged issue
/// identifier must not collide with a stored issue.
pub open spec fn save_succeeds(pre: StoreModel, tx: TransactionModel) -> bool {
    match tx.issue {
        Some(iss) => issue_index(pre.issues, iss.issue_id) == -1,
        None => true,
    }
}

/// The issues table after the staged issue, if any, is appended.
pub open spec fn staged_issues(issues: Seq<IssueModel>, tx: TransactionModel) -> Seq<IssueModel> {
    match tx.issue {
        Some(iss) => issues.push(iss),
        None => issues,
    }
}

/// Everything but the idempotency table is untouched.
pub open spec fn only_idempotency_changed(pre: StoreModel, post: StoreModel) -> bool {
    &&& post.issues == pre.issues
    &&& post.queue == pre.queue
    &&& post.subscriptions == pre.subscriptions
    &&& post.tokens == pre.tokens
}

/// What a publish command does next: continue in an open transaction, or
/// replay the response stored by an earlier run of the same command.
#[derive(Debug)]
pub enum NextAction {
    StartProcessing(Transaction),
    ReturnSavedResponse(CapturedResponse),
}

/// The conflict-in-progress anomaly: a record exists but holds no saved
/// response yet.
#[derive(Clone, Copy, PartialEq, Eq, Structural, Debug)]
pub enum IdempotencyError {
    SavedResponseNotFound,
}

impl IdempotencyError {
    /// A human-readable description.
    pub fn message(&self) -> (r: &'static str)
        ensures
            r@ == "Saved response not found"@,
    {
        "Saved response not found"
    }
}

/// Find the position of the row for `(user_id, key)`.
fn find_record(idem: &Vec<IdempotencyRecord>, user_id: u128, key: &IdempotencyKey) -> (r: Option<
    usize,
>)
    ensures
        ({
            let m = idem@.map_values(|rec: IdempotencyRecord| rec@);
            match r {
                Some(i) => i as int == record_index(m, user_id, key@) && i < idem.len(),
                None => record_index(m, user_id, key@) == -1,
            }
        }),
{
    let ghost m = idem@.map_values(|rec: IdempotencyRecord| rec@);
    let n = idem.len();
    let mut i: usize = 0;
    while i < n
        invariant
            n == idem.len(),
            i <= n,
            m == idem@.map_values(|rec: IdempotencyRecord| rec@),
            forall|j: int| 0 <= j < i ==> !(m[j].user_id == user_id && m[j].key == key@),
        decreases n - i,
    {
        let rec = &idem[i];
        if rec.user_id == user_id && key.eq_string(&rec.key) {
            proof {
                lemma_record_index(m, user_id, key@);
                assert(m[i as int].user_id == user_id && m[i as int].key == key@);
            }
            return Some(i);
        }
        i = i + 1;
    }
    proof {
        lemma_record_index(m, user_id, key@);
    }
    None
}

/// Attempt to claim `(user_id, key)`: insert a Claimed row if the pair is
/// absent and hand back the open transaction; replay the stored response
/// if the pair is Completed; report the conflict anomaly if the pair is
/// still Claimed by another run.
pub fn try_processing(
    store: &mut Store,
    idempotency_key: &IdempotencyKey,
    user_id: u128,
    now: i64,
) -> (r: Result<NextAction, IdempotencyError>)
    requires
        old(store).wf(),
    ensures
        final(store).wf(),
        ({
            let idem = old(store)@.idempotency;
            let idx = record_index(idem, user_id, idempotency_key@);
            match r {
                Ok(NextAction::StartProcessing(tx)) => {
                    &&& idx == -1
                    &&& final(store)@.idempotency == idem.push(
                        claimed_record(user_id, idempotency_key@, now),
                    )
                    &&& only_idempotency_changed(old(store)@, final(store)@)
                    &&& tx@ == fresh_transaction(user_id, idempotency_key@, now)
                },
                Ok(NextAction::ReturnSavedResponse(resp)) => {
                    &&& *final(store) == *old(store)
                    &&& idx >= 0
                    &&& idem[idx].response == Some(resp@)
                },
                Err(e) => {
                    &&& *final(store) == *old(store)
                    &&& idx >= 0
                    &&& idem[idx].response is None
                    &&& e == IdempotencyError::SavedResponseNotFound
                },
            }
        }),
{
    let ghost pre = store@;
    match find_record(&store.idempotency, user_id, idempotency_key) {
        Some(i) => {
            match &store.idempotency[i].response {
                Some(resp) => Ok(NextAction::ReturnSavedResponse(resp.duplicate())),
                None => Err(IdempotencyError::SavedResponseNotFound),
            }
        },
        None => {
            let rec = IdempotencyRecord {
                user_id,
                key: String::from_str(idempotency_key.as_str()),
                created_at: now,
                response: None,
            };
            store.idempotency.push(rec);
            proof {
                assert(store@.idempotency =~= pre.idempotency.push(
                    claimed_record(user_id, idempotency_key@, now),
                ));
                lemma_record_index(pre.idempotency, user_id, idempotency_key@);
                assert(records_unique(store@.idempotency)) by {
                    let post = store@.idempotency;
                    assert forall|a: int, b: int| 0 <= a < b < post.len() implies !(post[a].user_id
                        == post[b].user_id && post[a].key == post[b].key) by {
                        if b < pre.idempotency.len() {
                            assert(!(pre.idempotency[a].user_id == pre.idempotency[b].user_id
                                && pre.idempotency[a].key == pre.idempotency[b].key));
                        } else {
                            assert(!(pre.idempotency[a].user_id == user_id && pre.idempotency[a].key
                                == idempotency_key@));
                        }
                    }
                }
            }
            let tx = Transaction {
                user_id,
                key: idempotency_key.duplicate(),
                created_at: now,
                issue: None,
                tasks: Vec::new(),
            };
            proof {
                assert(tx@ =~= fresh_transaction(user_id, idempotency_key@, now));
            }
            Ok(NextAction::StartProcessing(tx))
        },
    }
}

/// Fetch the response stored for `(user_id, key)`, if the command has
/// completed.
pub fn get_saved_response(store: &Store, idempotency_key: &IdempotencyKey, user_id: u128) -> (r:
    Option<CapturedResponse>)
    ensures
        ({
            let idem = store@.idempotency;
            let idx = record_index(idem, user_id, idempotency_key@);
            match r {
                Some(resp) => idx >= 0 && idem[idx].response == Some(resp@),
                None => idx == -1 || idem[record_index(idem, user_id, idempotency_key@)].response
                    is None,
            }
        }),
{
    match find_record(&store.idempotency, user_id, idempotency_key) {
        Some(i) => {
            match &store.idempotency[i].response {
                Some(resp) => Some(resp.duplicate()),
                None => None,
            }
        },
        None => None,
    }
}

/// Discard an open transaction: the claim disappears with it, and the
/// key becomes available for a fresh attempt. Nothing else changes.
pub fn rollback(store: &mut Store, transaction: Transaction)
    requires
        old(store).wf(),
        has_pending_claim(old(store)@.idempotency, transaction@.user_id, transaction@.key),
    ensures
        final(store).wf(),
        final(store)@.idempotency == old(store)@.idempotency.remove(
            record_index(old(store)@.idempotency, transaction@.user_id, transaction@.key),
        ),
        only_idempotency_changed(old(store)@, final(store)@),
{
    let ghost pre = store@;
    let idx = match find_record(&store.idempotency, transaction.user_id, &transaction.key) {
        Some(i) => i,
        None => {
            proof {
                assert(false);
            }
            return ;
        },
    };
    store.idempotency.remove(idx);
    proof {
        assert(store@.idempotency =~= pre.idempotency.remove(idx as int));
        lemma_remove_keeps_records_unique(pre.idempotency, idx as int);
    }
}

/// Removing any row keeps the remaining rows unique.
proof fn lemma_remove_keeps_records_unique(s: Seq<RecordModel>, at: int)
    requires
        records_unique(s),
        0 <= at < s.len(),
    ensures
        records_unique(s.remove(at)),
{
    let t = s.remove(at);
    assert forall|a: int, b: int| 0 <= a < b < t.len() implies !(t[a].user_id == t[b].user_id
        && t[a].key == t[b].key) by {
        let a0 = if a < at {
            a
        } else {
            a + 1
        };
        let b0 = if b < at {
            b
        } else {
            b + 1
        };
        assert(t[a] == s[a0] && t[b] == s[b0]);
        assert(!(s[a0].user_id == s[b0].user_id && s[a0].key == s[b0].key));
    }
}


/// Claim isolation: of two concurrent publishes with the same fresh
/// `(user_id, key)`, exactly one wins the insert race. While the winner's
/// transaction is open, the row exists but is still Claimed, so the loser
/// cannot start processing; once the winner completes the row, the loser
/// finds exactly the winner's stored response to replay.
pub proof fn lemma_claim_isolation(
    idem: Seq<RecordModel>,
    user_id: u128,
    key: Seq<char>,
    now: i64,
    resp: ResponseModel,
)
    requires
        records_unique(idem),
        record_index(idem, user_id, key) == -1,
    ensures
        ({
            let claimed = idem.push(claimed_record(user_id, key, now));
            let cidx = record_index(claimed, user_id, key);
            &&& cidx == idem.len()
            &&& claimed[cidx].response is None
            &&& ({
                let completed = claimed.update(cidx, completed_record(claimed[cidx], resp));
                let fidx = record_index(completed, user_id, key);
                &&& fidx == cidx
                &&& completed[fidx].response == Some(resp)
            })
        }),
{
    let claimed = idem.push(claimed_record(user_id, key, now));
    lemma_record_index(idem, user_id, key);
    lemma_find_index_push(
        idem,
        |rec: RecordModel| rec.user_id == user_id && rec.key == key,
        claimed_record(user_id, key, now),
    );
    let cidx = record_index(claimed, user_id, key);
    let completed = claimed.update(cidx, completed_record(claimed[cidx], resp));
    lemma_record_index(completed, user_id, key);
    let fidx = record_index(completed, user_id, key);
    assert(completed[cidx].user_id == user_id && completed[cidx].key == key);
    if fidx != cidx {
        if 0 <= fidx < cidx {
            assert(completed[fidx] == idem[fidx]);
        }
    }
}

/// Atomicity: a claim followed by a rollback — the fate of a transaction
/// whose business write failed after the claim — restores the idempotency
/// table exactly: no record survives and the key is claimable again.
/// `rollback` itself guarantees that no issue and no task survive.
pub proof fn lemma_rollback_restores(
    idem: Seq<RecordModel>,
    user_id: u128,
    key: Seq<char>,
    now: i64,
)
    requires
        record_index(idem, user_id, key) == -1,
    ensures
        ({
            let claimed = idem.push(claimed_record(user_id, key, now));
            claimed.remove(record_index(claimed, user_id, key)) == idem
        }),
{
    lemma_find_index_push(
        idem,
        |rec: RecordModel| rec.user_id == user_id && rec.key == key,
        claimed_record(user_id, key, now),
    );
    let claimed = idem.push(claimed_record(user_id, key, now));
    assert(claimed.remove(idem.len() as int) =~= idem);
}

/// Serialize the captured response into the claimed row, apply the staged
/// issue and delivery tasks, and commit — all atomically. On a storage
/// conflict (the staged issue identifier already exists) the whole
/// transaction rolls back instead: no issue, no tasks, no idempotency
/// record survive. Returns the response for the caller to send.
pub fn save_response(
    store: &mut Store,
    transaction: Transaction,
    idempotency_key: &IdempotencyKey,
    user_id: u128,
    http_response: CapturedResponse,
) -> (r: Result<CapturedResponse, StorageError>)
    requires
        old(store).wf(),
        transaction@.user_id == user_id,
        transaction@.key == idempotency_key@,
        tx_wf(transaction@),
        has_pending_claim(old(store)@.idempotency, user_id, idempotency_key@),
    ensures
        final(store).wf(),
        ({
            let pre = old(store)@;
            let post = final(store)@;
            let idx = record_index(pre.idempotency, user_id, idempotency_key@);
            match r {
                Ok(resp) => {
                    &&& save_succeeds(pre, transaction@)
                    &&& resp@ == http_response@
                    &&& post.idempotency == pre.idempotency.update(
                        idx,
                        completed_record(pre.idempotency[idx], http_response@),
                    )
                    &&& post.issues == staged_issues(pre.issues, transaction@)
                    &&& post.queue == pre.queue + transaction@.tasks
                    &&& post.subscriptions == pre.subscriptions
                    &&& post.tokens == pre.tokens
                },
                Err(e) => {
                    &&& !save_succeeds(pre, transaction@)
                    &&& e == StorageError::UniqueViolation
                    &&& post.idempotency == pre.idempotency.remove(idx)
                    &&& only_idempotency_changed(pre, post)
                },
            }
        }),
{
    let ghost pre = store@;
    let ghost txm = transaction@;
    let ghost idx_g = record_index(pre.idempotency, user_id, idempotency_key@);

    // Conflict check: does the staged issue identifier already exist?
    let conflict: bool = match &transaction.issue {
        Some(iss) => {
            let found = find_issue_position(&store.issues, iss.issue_id);
            found.is_some()
        },
        None => false,
    };
    if conflict {
        rollback(store, transaction);
        return Err(StorageError::UniqueViolation);
    }
    let Transaction { user_id: _, key: _, created_at: _, issue, tasks } = transaction;
    // Complete the claimed row with the captured response.
    let idx = match find_record(&store.idempotency, user_id, idempotency_key) {
        Some(i) => i,
        None => {
            proof {
                assert(false);
            }
            return Err(StorageError::UniqueViolation);
        },
    };
    let stored_key = store.idempotency[idx].key.clone();
    let stored_created_at = store.idempotency[idx].created_at;
    let rec = IdempotencyRecord {
        user_id,
        key: stored_key,
        created_at: stored_created_at,
        response: Some(http_response.duplicate()),
    };
    store.idempotency.set(idx, rec);
    proof {
        lemma_record_index(pre.idempotency, user_id, idempotency_key@);
        assert(store@.idempotency =~= pre.idempotency.update(
            idx_g,
            completed_record(pre.idempotency[idx_g], http_response@),
        ));
        lemma_update_keeps_records_unique(
            pre.idempotency,
            idx_g,
            completed_record(pre.idempotency[idx_g], http_response@),
        );
    }
    // Apply the staged issue.
    let ghost mid = store@;
    match issue {
        Some(iss) => {
            store.issues.push(iss);
            proof {
                assert(store@.issues =~= mid.issues.push(txm.issue->Some_0));
                lemma_issue_index(pre.issues, txm.issue->Some_0.issue_id);
                assert(issues_unique(store@.issues)) by {
                    let post = store@.issues;
                    assert forall|a: int, b: int| 0 <= a < b < post.len() implies post[a].issue_id
                        != post[b].issue_id by {
                        if b < pre.issues.len() {
                            assert(pre.issues[a].issue_id != pre.issues[b].issue_id);
                        } else {
                            assert(pre.issues[a].issue_id != txm.issue->Some_0.issue_id);
                        }
                    }
                }
            }
        },
        None => {
            proof {
                assert(store@.issues =~= staged_issues(pre.issues, txm));
            }
        },
    }
    // Apply the staged delivery tasks.
    let ghost before_tasks = store@;
    let ghost staged = txm.tasks;
    let mut k: usize = 0;
    proof {
        assert(before_tasks.queue + staged.take(0) =~= before_tasks.queue);
    }
    let n = tasks.len();
    while k < n
        invariant
            n == tasks.len(),
            k <= n,
            tasks@.map_values(|t: DeliveryTask| t@) == staged,
            store@.queue == before_tasks.queue + staged.take(k as int),
            store@.idempotency == before_tasks.idempotency,
            store@.issues == before_tasks.issues,
            store@.subscriptions == before_tasks.subscriptions,
            store@.tokens == before_tasks.tokens,
        decreases n - k,
    {
        let ghost old_q = store@.queue;
        let t = tasks[k].duplicate();
        proof {
            assert(t@ == staged[k as int]);
        }
        store.queue.push(t);
        proof {
            assert(store@.queue =~= old_q.push(staged[k as int]));
            assert(old_q.push(staged[k as int]) =~= before_tasks.queue + staged.take(k as int + 1));
        }
        k = k + 1;
    }
    proof {
        assert(staged.take(n as int) =~= staged);
        assert(store@.queue =~= pre.queue + txm.tasks);
        lemma_save_queue_wf(pre, txm);
        assert(store.wf());
    }
    Ok(http_response)
}

/// Updating a row without changing its key keeps the rows unique.
proof fn lemma_update_keeps_records_unique(s: Seq<RecordModel>, at: int, rec: RecordModel)
    requires
        records_unique(s),
        0 <= at < s.len(),
        rec.user_id == s[at].user_id,
        rec.key == s[at].key,
    ensures
        records_unique(s.update(at, rec)),
{
    let t = s.update(at, rec);
    assert forall|a: int, b: int| 0 <= a < b < t.len() implies !(t[a].user_id == t[b].user_id
        && t[a].key == t[b].key) by {
        assert(t[a].user_id == s[a].user_id && t[a].key == s[a].key);
        assert(t[b].user_id == s[b].user_id && t[b].key == s[b].key);
        assert(!(s[a].user_id == s[b].user_id && s[a].key == s[b].key));
    }
}

/// After a successful save, the queue invariants still hold: the staged
/// tasks are unique among themselves, distinct from every stored task
/// (their issue is fresh), and they reference the freshly stored issue.
proof fn lemma_save_queue_wf(pre: StoreModel, txm: TransactionModel)
    requires
        tasks_unique(pre.queue),
        tasks_reference_issues(pre.queue, pre.issues),
        tx_wf(txm),
        save_succeeds(pre, txm),
    ensures
        tasks_unique(pre.queue + txm.tasks),
        tasks_reference_issues(pre.queue + txm.tasks, staged_issues(pre.issues, txm)),
{
    let q = pre.queue + txm.tasks;
    let iss = staged_issues(pre.issues, txm);
    let pn = pre.queue.len() as int;
    assert forall|a: int, b: int| 0 <= a < b < q.len() implies !(q[a].issue_id == q[b].issue_id
        && q[a].subscriber_email == q[b].subscriber_email) by {
        if b < pn {
            assert(q[a] == pre.queue[a] && q[b] == pre.queue[b]);
        } else if a >= pn {
            assert(q[a] == txm.tasks[a - pn] && q[b] == txm.tasks[b - pn]);
        } else {
            assert(q[a] == pre.queue[a] && q[b] == txm.tasks[b - pn]);
            let fresh_id = txm.issue->Some_0.issue_id;
            assert(q[b].issue_id == fresh_id);
            lemma_issue_index(pre.issues, fresh_id);
            lemma_issue_index(pre.issues, q[a].issue_id);
            assert(issue_index(pre.issues, q[a].issue_id) >= 0);
            assert(q[a].issue_id != fresh_id);
        }
    }
    assert forall|i: int| 0 <= i < q.len() implies issue_index(iss, q[i].issue_id) >= 0 by {
        if i < pn {
            assert(q[i] == pre.queue[i]);
            assert(issue_index(pre.issues, q[i].issue_id) >= 0);
            if txm.issue is Some {
                lemma_find_index_push(
                    pre.issues,
                    |r: IssueModel| r.issue_id == q[i].issue_id,
                    txm.issue->Some_0,
                );
            }
        } else {
            let fresh_id = txm.issue->Some_0.issue_id;
            assert(q[i] == txm.tasks[i - pn]);
            assert(q[i].issue_id == fresh_id);
            lemma_find_index_push(
                pre.issues,
                |r: IssueModel| r.issue_id == fresh_id,
                txm.issue->Some_0,
            );
            lemma_issue_index(pre.issues, fresh_id);
        }
    }
}

/// Find the position of the issue with the given identifier.
fn find_issue_position(issues: &Vec<NewsletterIssue>, id: NewsletterIssueId) -> (r:
    Option<usize>)
    ensures
        ({
            let m = issues@.map_values(|rec: NewsletterIssue| rec@);
            match r {
                Some(i) => i as int == issue_index(m, id) && i < issues.len(),
                None => issue_index(m, id) == -1,
            }
        }),
{
    let ghost m = issues@.map_values(|rec: NewsletterIssue| rec@);
    let n = issues.len();
    let mut i: usize = 0;
    while i < n
        invariant
            n == issues.len(),
            i <= n,
            m == issues@.map_values(|rec: NewsletterIssue| rec@),
            forall|j: int| 0 <= j < i ==> m[j].issue_id != id,
        decreases n - i,
    {
        if issues[i].issue_id == id {
            proof {
                lemma_issue_index(m, id);
                assert(m[i as int].issue_id == id);
            }
            return Some(i);
        }
        i = i + 1;
    }
    proof {
        lemma_issue_index(m, id);
    }
    None
}

} // verus!
