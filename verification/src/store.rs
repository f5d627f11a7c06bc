//! The persisted state of the system, modeled in memory.
//!
//! One `Store` stands for the four tables the system relies on: the
//! idempotency table keyed by `(user_id, idempotency_key)`, the newsletter
//! issues keyed by issue id, the delivery queue keyed by
//! `(issue_id, subscriber_email)`, and the subscriptions with their
//! confirmation tokens. A `locked` mark on a queue row stands for the
//! row-level lock an open claiming transaction holds: claiming skips
//! locked rows, and releasing a row (a transaction that ends without
//! deleting) clears the mark.
//!
//! Every operation states its exact effect on the mathematical view of the
//! store, and preserves the well-formedness invariant [`Store::wf`].

use vstd::prelude::*;

use crate::response::CapturedResponse;
use crate::response::ResponseModel;

verus! {

/// Identifier of a newsletter issue.
#[derive(Clone, Copy, PartialEq, Eq, Structural, Debug)]
pub struct NewsletterIssueId(pub u128);

impl NewsletterIssueId {
    /// Wrap a raw identifier.
    pub fn new(id: u128) -> (r: NewsletterIssueId)
        ensures
            r.0 == id,
    {
        NewsletterIssueId(id)
    }
}

/// The confirmation state of a subscription.
#[derive(Clone, Copy, PartialEq, Eq, Structural, Debug)]
pub enum SubscriberStatus {
    PendingConfirmation,
    Confirmed,
}

/// A row of the idempotency table. `response` absent means the row is
/// Claimed: a command holds it while its transaction is open. `response`
/// present means Completed.
#[derive(Debug)]
pub struct IdempotencyRecord {
    pub user_id: u128,
    pub key: String,
    pub created_at: i64,
    pub response: Option<CapturedResponse>,
}

/// Mathematical form of an idempotency row.
#[verifier::ext_equal]
pub struct RecordModel {
    pub user_id: u128,
    pub key: Seq<char>,
    pub created_at: i64,
    pub response: Option<ResponseModel>,
}

impl View for IdempotencyRecord {
    type V = RecordModel;

    open spec fn view(&self) -> RecordModel {
        RecordModel {
            user_id: self.user_id,
            key: self.key@,
            created_at: self.created_at,
            response: match self.response {
                Some(r) => Some(r@),
                None => None,
            },
        }
    }
}

/// A stored newsletter issue.
#[derive(Debug)]
pub struct NewsletterIssue {
    pub issue_id: NewsletterIssueId,
    pub title: String,
    pub content_html: String,
    pub content_text: String,
    pub published_at: i64,
}

/// Mathematical form of a newsletter issue.
#[verifier::ext_equal]
pub struct IssueModel {
    pub issue_id: NewsletterIssueId,
    pub title: Seq<char>,
    pub content_html: Seq<char>,
    pub content_text: Seq<char>,
    pub published_at: i64,
}

impl View for NewsletterIssue {
    type V = IssueModel;

    open spec fn view(&self) -> IssueModel {
        IssueModel {
            issue_id: self.issue_id,
            title: self.title@,
            content_html: self.content_html@,
            content_text: self.content_text@,
            published_at: self.published_at,
        }
    }
}

/// A row of the delivery queue. `locked` stands for the row lock of an
/// open claiming transaction.
#[derive(Debug)]
pub struct DeliveryTask {
    pub issue_id: NewsletterIssueId,
    pub subscriber_email: String,
    pub locked: bool,
}

/// Mathematical form of a delivery queue row.
#[verifier::ext_equal]
pub struct TaskModel {
    pub issue_id: NewsletterIssueId,
    pub subscriber_email: Seq<char>,
    pub locked: bool,
}

impl View for DeliveryTask {
    type V = TaskModel;

    open spec fn view(&self) -> TaskModel {
        TaskModel {
            issue_id: self.issue_id,
            subscriber_email: self.subscriber_email@,
            locked: self.locked,
        }
    }
}

impl DeliveryTask {
    /// An exact copy of this queue row.
    pub fn duplicate(&self) -> (r: DeliveryTask)
        ensures
            r@ == self@,
    {
        DeliveryTask {
            issue_id: self.issue_id,
            subscriber_email: self.subscriber_email.clone(),
            locked: self.locked,
        }
    }
}

/// A subscription row.
#[derive(Debug)]
pub struct Subscriber {
    pub id: u128,
    pub email: String,
    pub name: String,
    pub status: SubscriberStatus,
    pub subscribed_at: i64,
}

/// Mathematical form of a subscription row.
#[verifier::ext_equal]
pub struct SubscriberModel {
    pub id: u128,
    pub email: Seq<char>,
    pub name: Seq<char>,
    pub status: SubscriberStatus,
    pub subscribed_at: i64,
}

impl View for Subscriber {
    type V = SubscriberModel;

    open spec fn view(&self) -> SubscriberModel {
        SubscriberModel {
            id: self.id,
            email: self.email@,
            name: self.name@,
            status: self.status,
            subscribed_at: self.subscribed_at,
        }
    }
}

/// A subscription confirmation token row.
#[derive(Debug)]
pub struct SubscriptionToken {
    pub token: String,
    pub subscriber_id: u128,
}

/// Mathematical form of a token row.
#[verifier::ext_equal]
pub struct TokenModel {
    pub token: Seq<char>,
    pub subscriber_id: u128,
}

impl View for SubscriptionToken {
    type V = TokenModel;

    open spec fn view(&self) -> TokenModel {
        TokenModel { token: self.token@, subscriber_id: self.subscriber_id }
    }
}

/// The whole persisted state.
#[derive(Debug)]
pub struct Store {
    pub idempotency: Vec<IdempotencyRecord>,
    pub issues: Vec<NewsletterIssue>,
    pub queue: Vec<DeliveryTask>,
    pub subscriptions: Vec<Subscriber>,
    pub tokens: Vec<SubscriptionToken>,
}

/// Mathematical form of the whole persisted state.
#[verifier::ext_equal]
pub struct StoreModel {
    pub idempotency: Seq<RecordModel>,
    pub issues: Seq<IssueModel>,
    pub queue: Seq<TaskModel>,
    pub subscriptions: Seq<SubscriberModel>,
    pub tokens: Seq<TokenModel>,
}

impl View for Store {
    type V = StoreModel;

    open spec fn view(&self) -> StoreModel {
        StoreModel {
            idempotency: self.idempotency@.map_values(|r: IdempotencyRecord| r@),
            issues: self.issues@.map_values(|r: NewsletterIssue| r@),
            queue: self.queue@.map_values(|r: DeliveryTask| r@),
            subscriptions: self.subscriptions@.map_values(|r: Subscriber| r@),
            tokens: self.tokens@.map_values(|r: SubscriptionToken| r@),
        }
    }
}

/// The position of the first element satisfying `p`, or `-1` if none does.
pub open spec fn find_index<T>(s: Seq<T>, p: spec_fn(T) -> bool) -> int
    decreases s.len(),
{
    if s.len() <= 0 {
        -1
    } else if p(s[0]) {
        0
    } else {
        let r = find_index(s.drop_first(), p);
        if r < 0 {
            -1
        } else {
            r + 1
        }
    }
}

/// What `find_index` returns: `-1` exactly when nothing matches, and
/// otherwise the first matching position.
pub proof fn lemma_find_index<T>(s: Seq<T>, p: spec_fn(T) -> bool)
    ensures
        find_index(s, p) == -1 ==> forall|i: int| 0 <= i < s.len() ==> !p(s[i]),
        find_index(s, p) != -1 ==> {
            let r = find_index(s, p);
            &&& 0 <= r < s.len()
            &&& p(s[r])
            &&& forall|i: int| 0 <= i < r ==> !p(s[i])
        },
    decreases s.len(),
{
    if s.len() > 0 && !p(s[0]) {
        let t = s.drop_first();
        lemma_find_index(t, p);
        let rt = find_index(t, p);
        assert(forall|i: int| 0 <= i < t.len() ==> t[i] == s[i + 1]);
        if rt == -1 {
            assert forall|i: int| 0 <= i < s.len() implies !p(s[i]) by {
                if i > 0 {
                    assert(!p(t[i - 1]));
                }
            }
        } else {
            assert(p(t[rt]));
            assert forall|i: int| 0 <= i < rt + 1 implies !p(s[i]) by {
                if i > 0 {
                    assert(!p(t[i - 1]));
                }
            }
        }
    }
}

/// Pushing an element does not disturb an existing first match; with no
/// existing match, the pushed element is the only candidate.
pub proof fn lemma_find_index_push<T>(s: Seq<T>, p: spec_fn(T) -> bool, x: T)
    ensures
        find_index(s, p) != -1 ==> find_index(s.push(x), p) == find_index(s, p),
        find_index(s, p) == -1 && p(x) ==> find_index(s.push(x), p) == s.len(),
        find_index(s, p) == -1 && !p(x) ==> find_index(s.push(x), p) == -1,
    decreases s.len(),
{
    if s.len() == 0 {
        assert(s.push(x)[0] == x);
        assert(s.push(x).drop_first() =~= Seq::<T>::empty());
        assert(find_index(Seq::<T>::empty(), p) == -1);
    } else {
        assert(s.push(x)[0] == s[0]);
        assert(s.push(x).drop_first() =~= s.drop_first().push(x));
        lemma_find_index_push(s.drop_first(), p, x);
    }
}

/// What `record_index` returns, spelled out.
pub proof fn lemma_record_index(s: Seq<RecordModel>, user_id: u128, key: Seq<char>)
    ensures
        record_index(s, user_id, key) == -1 ==> forall|i: int|
            0 <= i < s.len() ==> !(s[i].user_id == user_id && s[i].key == key),
        record_index(s, user_id, key) != -1 ==> {
            let r = record_index(s, user_id, key);
            &&& 0 <= r < s.len()
            &&& s[r].user_id == user_id
            &&& s[r].key == key
            &&& forall|i: int| 0 <= i < r ==> !(s[i].user_id == user_id && s[i].key == key)
        },
{
    lemma_find_index(s, |r: RecordModel| r.user_id == user_id && r.key == key);
}

/// What `issue_index` returns, spelled out.
pub proof fn lemma_issue_index(s: Seq<IssueModel>, id: NewsletterIssueId)
    ensures
        issue_index(s, id) == -1 ==> forall|i: int| 0 <= i < s.len() ==> s[i].issue_id != id,
        issue_index(s, id) != -1 ==> {
            let r = issue_index(s, id);
            &&& 0 <= r < s.len()
            &&& s[r].issue_id == id
            &&& forall|i: int| 0 <= i < r ==> s[i].issue_id != id
        },
{
    lemma_find_index(s, |r: IssueModel| r.issue_id == id);
}

/// What `task_index` returns, spelled out.
pub proof fn lemma_task_index(s: Seq<TaskModel>, id: NewsletterIssueId, email: Seq<char>)
    ensures
        task_index(s, id, email) == -1 ==> forall|i: int|
            0 <= i < s.len() ==> !(s[i].issue_id == id && s[i].subscriber_email == email),
        task_index(s, id, email) != -1 ==> {
            let r = task_index(s, id, email);
            &&& 0 <= r < s.len()
            &&& s[r].issue_id == id
            &&& s[r].subscriber_email == email
            &&& forall|i: int|
                0 <= i < r ==> !(s[i].issue_id == id && s[i].subscriber_email == email)
        },
{
    lemma_find_index(s, |r: TaskModel| r.issue_id == id && r.subscriber_email == email);
}

/// What `first_unlocked` returns, spelled out.
pub proof fn lemma_first_unlocked(s: Seq<TaskModel>)
    ensures
        first_unlocked(s) == -1 ==> forall|i: int| 0 <= i < s.len() ==> s[i].locked,
        first_unlocked(s) != -1 ==> {
            let r = first_unlocked(s);
            &&& 0 <= r < s.len()
            &&& !s[r].locked
            &&& forall|i: int| 0 <= i < r ==> s[i].locked
        },
{
    lemma_find_index(s, |r: TaskModel| !r.locked);
}

/// What `subscriber_index` returns, spelled out.
pub proof fn lemma_subscriber_index(s: Seq<SubscriberModel>, id: u128)
    ensures
        subscriber_index(s, id) == -1 ==> forall|i: int| 0 <= i < s.len() ==> s[i].id != id,
        subscriber_index(s, id) != -1 ==> {
            let r = subscriber_index(s, id);
            &&& 0 <= r < s.len()
            &&& s[r].id == id
            &&& forall|i: int| 0 <= i < r ==> s[i].id != id
        },
{
    lemma_find_index(s, |r: SubscriberModel| r.id == id);
}

/// What `subscriber_email_index` returns, spelled out.
pub proof fn lemma_subscriber_email_index(s: Seq<SubscriberModel>, email: Seq<char>)
    ensures
        subscriber_email_index(s, email) == -1 ==> forall|i: int|
            0 <= i < s.len() ==> s[i].email != email,
        subscriber_email_index(s, email) != -1 ==> {
            let r = subscriber_email_index(s, email);
            &&& 0 <= r < s.len()
            &&& s[r].email == email
            &&& forall|i: int| 0 <= i < r ==> s[i].email != email
        },
{
    lemma_find_index(s, |r: SubscriberModel| r.email == email);
}

/// What `token_index` returns, spelled out.
pub proof fn lemma_token_index(s: Seq<TokenModel>, token: Seq<char>)
    ensures
        token_index(s, token) == -1 ==> forall|i: int| 0 <= i < s.len() ==> s[i].token != token,
        token_index(s, token) != -1 ==> {
            let r = token_index(s, token);
            &&& 0 <= r < s.len()
            &&& s[r].token == token
            &&& forall|i: int| 0 <= i < r ==> s[i].token != token
        },
{
    lemma_find_index(s, |r: TokenModel| r.token == token);
}

/// Position of the record for `(user_id, key)` in the idempotency table.
pub open spec fn record_index(s: Seq<RecordModel>, user_id: u128, key: Seq<char>) -> int {
    find_index(s, |r: RecordModel| r.user_id == user_id && r.key == key)
}

/// Position of the issue with identifier `id`.
pub open spec fn issue_index(s: Seq<IssueModel>, id: NewsletterIssueId) -> int {
    find_index(s, |r: IssueModel| r.issue_id == id)
}

/// Position of the queue row for `(id, email)`.
pub open spec fn task_index(s: Seq<TaskModel>, id: NewsletterIssueId, email: Seq<char>) -> int {
    find_index(s, |r: TaskModel| r.issue_id == id && r.subscriber_email == email)
}

/// Position of the first unlocked queue row: the row a claim returns.
pub open spec fn first_unlocked(s: Seq<TaskModel>) -> int {
    find_index(s, |r: TaskModel| !r.locked)
}

/// Position of the subscription with identifier `id`.
pub open spec fn subscriber_index(s: Seq<SubscriberModel>, id: u128) -> int {
    find_index(s, |r: SubscriberModel| r.id == id)
}

/// Position of the subscription with the given email.
pub open spec fn subscriber_email_index(s: Seq<SubscriberModel>, email: Seq<char>) -> int {
    find_index(s, |r: SubscriberModel| r.email == email)
}

/// Position of the token row with the given token.
pub open spec fn token_index(s: Seq<TokenModel>, token: Seq<char>) -> int {
    find_index(s, |r: TokenModel| r.token == token)
}

/// At most one idempotency row per `(user_id, key)`.
pub open spec fn records_unique(s: Seq<RecordModel>) -> bool {
    forall|i: int, j: int|
        0 <= i < j < s.len() ==> !(s[i].user_id == s[j].user_id && s[i].key == s[j].key)
}

/// Issue identifiers are unique.
pub open spec fn issues_unique(s: Seq<IssueModel>) -> bool {
    forall|i: int, j: int| 0 <= i < j < s.len() ==> s[i].issue_id != s[j].issue_id
}

/// At most one queue row per `(issue_id, subscriber_email)`.
pub open spec fn tasks_unique(s: Seq<TaskModel>) -> bool {
    forall|i: int, j: int|
        0 <= i < j < s.len() ==> !(s[i].issue_id == s[j].issue_id && s[i].subscriber_email
            == s[j].subscriber_email)
}

/// Every queue row points at a stored issue.
pub open spec fn tasks_reference_issues(q: Seq<TaskModel>, issues: Seq<IssueModel>) -> bool {
    forall|i: int| 0 <= i < q.len() ==> issue_index(issues, q[i].issue_id) >= 0
}

/// Subscription identifiers and emails are unique.
pub open spec fn subscribers_unique(s: Seq<SubscriberModel>) -> bool {
    forall|i: int, j: int|
        0 <= i < j < s.len() ==> s[i].id != s[j].id && s[i].email != s[j].email
}

/// Token strings are unique.
pub open spec fn tokens_unique(s: Seq<TokenModel>) -> bool {
    forall|i: int, j: int| 0 <= i < j < s.len() ==> s[i].token != s[j].token
}

/// Well-formedness of a store model.
pub open spec fn model_wf(m: StoreModel) -> bool {
    &&& records_unique(m.idempotency)
    &&& issues_unique(m.issues)
    &&& tasks_unique(m.queue)
    &&& tasks_reference_issues(m.queue, m.issues)
    &&& subscribers_unique(m.subscriptions)
    &&& tokens_unique(m.tokens)
}

impl Store {
    /// Well-formedness: the uniqueness invariants of the four tables, and
    /// every queue row pointing at a stored issue.
    pub open spec fn wf(&self) -> bool {
        model_wf(self@)
    }

    /// An empty store.
    pub fn new() -> (r: Store)
        ensures
            r.wf(),
            r@.idempotency == Seq::<RecordModel>::empty(),
            r@.issues == Seq::<IssueModel>::empty(),
            r@.queue == Seq::<TaskModel>::empty(),
            r@.subscriptions == Seq::<SubscriberModel>::empty(),
            r@.tokens == Seq::<TokenModel>::empty(),
    {
        let r = Store {
            idempotency: Vec::new(),
            issues: Vec::new(),
            queue: Vec::new(),
            subscriptions: Vec::new(),
            tokens: Vec::new(),
        };
        assert(r@.idempotency =~= Seq::<RecordModel>::empty());
        assert(r@.issues =~= Seq::<IssueModel>::empty());
        assert(r@.queue =~= Seq::<TaskModel>::empty());
        assert(r@.subscriptions =~= Seq::<SubscriberModel>::empty());
        assert(r@.tokens =~= Seq::<TokenModel>::empty());
        r
    }
}

/// A storage conflict: an insert hit an existing unique key.
#[derive(Clone, Copy, PartialEq, Eq, Structural, Debug)]
pub enum StorageError {
    UniqueViolation,
}

impl StorageError {
    /// A human-readable description.
    pub fn message(&self) -> (r: &'static str)
        ensures
            r@ == "a unique constraint was violated"@,
    {
        "a unique constraint was violated"
    }
}

} // verus!
