//! Reconciling labels with repositories: for every pair of a repository and a
//! label, create the label, and update it instead where it already exists.
//!
//! The library decides what to send and what each answer means; its caller
//! sends the requests. A pair that fails is recorded and the run goes on
//! with the next pair.

use vstd::prelude::*;
use crate::labels::{label_views, WeekLabel, WeekLabelView};
use crate::repos::{repository_views, Repository, RepositoryView};
use crate::tools::random::random_byte;
use crate::request::{body_of, create_request, update_request, LabelBodyView, Request, RequestView};

verus! {

/// The status with which the remote store refuses to create a label that
/// exists already.
pub const STATUS_CONFLICT: u16 = 422;

/// A status with which the remote store turns away requests that come too
/// fast.
pub const STATUS_FORBIDDEN: u16 = 403;

/// The other status with which the remote store turns away requests that
/// come too fast.
pub const STATUS_TOO_MANY_REQUESTS: u16 = 429;

/// What came back for a request of the reconciliation.
#[derive(Clone, Copy, Debug, PartialEq, Eq, Structural)]
pub enum Response {
    /// An answer, with its status code.
    Status(u16),
    /// No answer: the request could not be sent or the connection failed.
    NoAnswer,
}

/// The two requests of the protocol.
#[derive(Clone, Copy, Debug, PartialEq, Eq, Structural)]
pub enum Step {
    Create,
    Update,
}

/// Why a pair failed: the request that failed, and what came back for it.
#[derive(Clone, Copy, Debug, PartialEq, Eq, Structural)]
pub struct Failure {
    pub step: Step,
    pub response: Response,
}

/// How the reconciliation of one pair ended.
#[derive(Clone, Copy, Debug, PartialEq, Eq, Structural)]
pub enum ReconciliationOutcome {
    /// The label existed with the same colour and description, and nothing
    /// was written. The protocol of this module writes without comparing
    /// first and never reports this outcome.
    Unchanged,
    /// The label did not exist and was created.
    Created,
    /// The label existed and was updated.
    Updated,
    /// The label could not be created or updated.
    Failed(Failure),
}

/// How often a request that was turned away for coming too fast is sent
/// again, and how long to wait before that.
#[derive(Clone, Copy, Debug, PartialEq, Eq, Structural)]
pub struct RetryPolicy {
    /// The number of times that one request may be sent, the first time
    /// included. With 0 or 1 nothing is sent twice.
    pub max_attempts: u32,
    /// The wait before the first retry, in milliseconds. Each further retry
    /// waits twice as long as the one before.
    pub base_delay_ms: u64,
}

/// What an answer means for the pair it belongs to.
#[derive(Clone, Copy, Debug, PartialEq, Eq, Structural)]
pub enum Verdict {
    /// The pair is done, with this outcome.
    Settled(ReconciliationOutcome),
    /// The label exists: the update is due.
    UpdateDue,
    /// The request is due again, after a wait.
    RetryDue,
}

/// Whether a response reports success: a status from 200 to 299.
pub open spec fn is_success(response: Response) -> bool {
    response matches Response::Status(code) && 200 <= code <= 299
}

/// Whether a response says that the request came too fast.
pub open spec fn is_rate_limited(response: Response) -> bool {
    response == Response::Status(STATUS_FORBIDDEN) || response == Response::Status(
        STATUS_TOO_MANY_REQUESTS,
    )
}

/// Whether a request that was sent again `retries` times already may be
/// sent once more.
pub open spec fn may_retry(policy: RetryPolicy, retries: nat) -> bool {
    retries + 1 < policy.max_attempts
}

/// What `response` means as the answer to the request of `step`, after
/// `retries` retries of that request.
///
/// Success settles the pair: `Created` after a create, `Updated` after an
/// update. A conflict on create makes the update due. A request that came
/// too fast is due again while the policy allows. Everything else fails the
/// pair, with the step and the response as the reason.
pub open spec fn verdict_of(policy: RetryPolicy, step: Step, retries: nat, response: Response) -> Verdict {
    if is_success(response) {
        Verdict::Settled(
            match step {
                Step::Create => ReconciliationOutcome::Created,
                Step::Update => ReconciliationOutcome::Updated,
            },
        )
    } else if step == Step::Create && response == Response::Status(STATUS_CONFLICT) {
        Verdict::UpdateDue
    } else if is_rate_limited(response) && may_retry(policy, retries) {
        Verdict::RetryDue
    } else {
        Verdict::Settled(ReconciliationOutcome::Failed(Failure { step, response }))
    }
}

/// Judges the answer to the request of `step`, which was sent again
/// `retries` times before.
pub fn judge(policy: RetryPolicy, step: Step, retries: u32, response: Response) -> (verdict: Verdict)
    ensures
        verdict == verdict_of(policy, step, retries as nat, response),
{
    let success = match response {
        Response::Status(code) => 200 <= code && code <= 299,
        Response::NoAnswer => false,
    };
    let conflict = match (step, response) {
        (Step::Create, Response::Status(code)) => code == STATUS_CONFLICT,
        _ => false,
    };
    let rate_limited = match response {
        Response::Status(code) => code == STATUS_FORBIDDEN || code == STATUS_TOO_MANY_REQUESTS,
        Response::NoAnswer => false,
    };
    if success {
        match step {
            Step::Create => Verdict::Settled(ReconciliationOutcome::Created),
            Step::Update => Verdict::Settled(ReconciliationOutcome::Updated),
        }
    } else if conflict {
        Verdict::UpdateDue
    } else if rate_limited && retries < u32::MAX && retries + 1 < policy.max_attempts {
        Verdict::RetryDue
    } else {
        Verdict::Settled(ReconciliationOutcome::Failed(Failure { step, response }))
    }
}

/// The wait before a retry that follows `retries` earlier retries, without
/// regard to what a machine can count: the base delay, doubled once for each
/// earlier retry.
pub open spec fn backoff(base_delay_ms: nat, retries: nat) -> nat
    decreases retries,
{
    if retries == 0 {
        base_delay_ms
    } else {
        2 * backoff(base_delay_ms, (retries - 1) as nat)
    }
}

/// The wait before a retry in milliseconds: the doubled delay, or the
/// longest wait that can be counted where that is shorter.
pub open spec fn backoff_ms(base_delay_ms: nat, retries: nat) -> nat {
    if backoff(base_delay_ms, retries) <= u64::MAX {
        backoff(base_delay_ms, retries)
    } else {
        u64::MAX as nat
    }
}

/// The wait never shrinks from one retry to the next.
pub proof fn lemma_backoff_grows(base_delay_ms: nat, retries: nat)
    ensures
        backoff(base_delay_ms, retries) <= backoff(base_delay_ms, retries + 1),
        backoff_ms(base_delay_ms, retries) <= backoff_ms(base_delay_ms, retries + 1),
        base_delay_ms <= backoff(base_delay_ms, retries),
    decreases retries,
{
    if retries > 0 {
        lemma_backoff_grows(base_delay_ms, (retries - 1) as nat);
    }
}

/// A wait that is zero stays zero, and a wait that has reached the longest
/// that can be counted stays there, however many retries follow.
pub proof fn lemma_backoff_settles(base_delay_ms: nat, retries: nat, later: nat)
    requires
        retries <= later,
    ensures
        backoff_ms(base_delay_ms, retries) == 0 ==> backoff_ms(base_delay_ms, later) == 0,
        backoff_ms(base_delay_ms, retries) == u64::MAX ==> backoff_ms(base_delay_ms, later)
            == u64::MAX,
    decreases later,
{
    if retries < later {
        lemma_backoff_settles(base_delay_ms, retries, (later - 1) as nat);
        lemma_backoff_grows(base_delay_ms, (later - 1) as nat);
    }
}

/// How long to wait, in milliseconds, before a retry that follows `retries`
/// earlier retries.
pub fn backoff_delay(base_delay_ms: u64, retries: u32) -> (delay: u64)
    ensures
        delay == backoff_ms(base_delay_ms as nat, retries as nat),
{
    let mut delay = base_delay_ms;
    let mut done: u32 = 0;
    while done < retries && 0 < delay && delay < u64::MAX
        invariant
            done <= retries,
            delay == backoff_ms(base_delay_ms as nat, done as nat),
        decreases retries - done,
    {
        proof {
            lemma_backoff_grows(base_delay_ms as nat, done as nat);
        }
        delay = if delay > u64::MAX / 2 {
            u64::MAX
        } else {
            2 * delay
        };
        done += 1;
    }
    proof {
        lemma_backoff_settles(base_delay_ms as nat, done as nat, retries as nat);
    }
    delay
}

/// A wait with jitter: the lower half of `delay_ms` in full, and of the
/// upper half the part `sample / 255`.
pub open spec fn jittered(delay_ms: nat, sample: nat) -> nat {
    (delay_ms - delay_ms / 2 + ((delay_ms / 2) * sample) / 255) as nat
}

/// A wait with jitter lies between half of the delay and the whole of it.
pub proof fn lemma_jittered_range(delay_ms: nat, sample: nat)
    requires
        sample <= 255,
    ensures
        delay_ms - delay_ms / 2 <= jittered(delay_ms, sample) <= delay_ms,
        jittered(delay_ms, 0) == delay_ms - delay_ms / 2,
        jittered(delay_ms, 255) == delay_ms,
{
    let half = delay_ms / 2;
    assert(0 <= (half * sample) / 255 <= half) by (nonlinear_arith)
        requires
            0 <= half,
            0 <= sample <= 255,
    ;
    assert((half * 255) / 255 == half) by (nonlinear_arith);
    assert((half * 0) / 255 == 0) by (nonlinear_arith);
}

/// Shortens the wait `delay_ms` by the part of its upper half that `sample`
/// leaves out.
pub fn with_jitter(delay_ms: u64, sample: u8) -> (wait: u64)
    ensures
        wait == jittered(delay_ms as nat, sample as nat),
        delay_ms - delay_ms / 2 <= wait <= delay_ms,
{
    proof {
        lemma_jittered_range(delay_ms as nat, sample as nat);
    }
    let half: u64 = delay_ms / 2;
    assert(half * sample <= 0xffff_ffff_ffff_ffff * 255) by (nonlinear_arith)
        requires
            half <= 0xffff_ffff_ffff_ffff,
            sample <= 255,
    ;
    let part: u128 = ((half as u128) * (sample as u128)) / 255;
    delay_ms - half + (part as u64)
}

/// The wait `delay_ms` with random jitter: the jittered wait of one sample
/// byte drawn at random, and so between half of the delay and the whole of
/// it. Two calls may give different waits.
pub fn jittered_delay(delay_ms: u64) -> (wait: u64)
    ensures
        exists|sample: nat| sample <= 255 && wait == #[trigger] jittered(delay_ms as nat, sample),
        delay_ms - delay_ms / 2 <= wait <= delay_ms,
{
    let sample = random_byte();
    let wait = with_jitter(delay_ms, sample);
    assert(wait == jittered(delay_ms as nat, sample as nat));
    wait
}

/// A run over every pair of a repository and a label: repositories in
/// order, and for each repository the labels in order.
#[derive(Clone, Debug)]
pub struct Reconciler {
    /// The repositories to label.
    pub repos: Vec<Repository>,
    /// The labels to apply to each of them.
    pub labels: Vec<WeekLabel>,
    /// When to send a request again.
    pub policy: RetryPolicy,
    /// The repository of the pair that is being reconciled.
    pub repo_index: usize,
    /// The label of the pair that is being reconciled.
    pub label_index: usize,
    /// The request of that pair that is due.
    pub step: Step,
    /// How often that request was sent again already.
    pub retries: u32,
    /// The outcomes of the pairs that are done, in the order of the run.
    pub outcomes: Vec<ReconciliationOutcome>,
}

/// What a `Reconciler` holds, as mathematical values.
pub ghost struct ReconcilerView {
    pub repos: Seq<RepositoryView>,
    pub labels: Seq<WeekLabelView>,
    pub policy: RetryPolicy,
    pub repo_index: nat,
    pub label_index: nat,
    pub step: Step,
    pub retries: nat,
    pub outcomes: Seq<ReconciliationOutcome>,
}

impl View for Reconciler {
    type V = ReconcilerView;

    open spec fn view(&self) -> ReconcilerView {
        ReconcilerView {
            repos: repository_views(self.repos@),
            labels: label_views(self.labels@),
            policy: self.policy,
            repo_index: self.repo_index as nat,
            label_index: self.label_index as nat,
            step: self.step,
            retries: self.retries as nat,
            outcomes: self.outcomes@,
        }
    }
}

/// A run at its start: the first pair, its create request due, no outcome
/// yet.
pub open spec fn run_start(
    repos: Seq<RepositoryView>,
    labels: Seq<WeekLabelView>,
    policy: RetryPolicy,
) -> ReconcilerView {
    ReconcilerView {
        repos,
        labels,
        policy,
        repo_index: 0,
        label_index: 0,
        step: Step::Create,
        retries: 0,
        outcomes: Seq::empty(),
    }
}

/// Whether every pair of the run is done.
pub open spec fn run_finished(run: ReconcilerView) -> bool {
    run.repo_index >= run.repos.len() || run.label_index >= run.labels.len()
}

/// Whether the run is in a state that a run can reach from its start: its
/// current pair exists unless every pair is done, and it holds one outcome
/// for each pair before that one.
pub open spec fn run_wf(run: ReconcilerView) -> bool {
    if run.labels.len() == 0 {
        run.repo_index == 0 && run.label_index == 0 && run.outcomes.len() == 0
    } else {
        &&& run.repo_index <= run.repos.len()
        &&& run.label_index < run.labels.len()
        &&& run.repo_index == run.repos.len() ==> run.label_index == 0
        &&& run.outcomes.len() == run.repo_index * run.labels.len() + run.label_index
    }
}

/// The request that is due in a run, if any: the create or the update of the
/// current pair.
pub open spec fn run_request(run: ReconcilerView) -> Option<RequestView> {
    if run_finished(run) {
        None
    } else {
        let repo = run.repos[run.repo_index as int];
        let label = run.labels[run.label_index as int];
        Some(
            match run.step {
                Step::Create => create_request(repo.owner, repo.name, label),
                Step::Update => update_request(repo.owner, repo.name, label),
            },
        )
    }
}

/// The run after its current pair ended with `outcome`: the outcome is
/// recorded, and the create request of the next pair is due. The next pair
/// is the next label of the same repository, or the first label of the next
/// repository.
pub open spec fn run_settled(run: ReconcilerView, outcome: ReconciliationOutcome) -> ReconcilerView {
    let last_label = run.label_index + 1 >= run.labels.len();
    ReconcilerView {
        repo_index: if last_label {
            run.repo_index + 1
        } else {
            run.repo_index
        },
        label_index: if last_label {
            0
        } else {
            run.label_index + 1
        },
        step: Step::Create,
        retries: 0,
        outcomes: run.outcomes.push(outcome),
        ..run
    }
}

/// The run after the answer to its due request came back. A finished run
/// stays as it is.
pub open spec fn run_after(run: ReconcilerView, response: Response) -> ReconcilerView {
    if run_finished(run) {
        run
    } else {
        match verdict_of(run.policy, run.step, run.retries, response) {
            Verdict::Settled(outcome) => run_settled(run, outcome),
            Verdict::UpdateDue => ReconcilerView { step: Step::Update, retries: 0, ..run },
            Verdict::RetryDue => ReconcilerView { retries: run.retries + 1, ..run },
        }
    }
}

/// What the caller is to do after an answer was taken in.
#[derive(Clone, Copy, Debug, PartialEq, Eq, Structural)]
pub enum Progress {
    /// The pair is done with this outcome; go on with the next request, if
    /// one is due.
    Settled(ReconciliationOutcome),
    /// The label exists; send the update that is now due.
    UpdateDue,
    /// Wait this many milliseconds, then send the due request again.
    RetryAfter(u64),
    /// The run was finished before; the answer was ignored.
    Finished,
}

/// What the caller is told after `response` came back in `run`.
pub open spec fn run_progress(run: ReconcilerView, response: Response) -> Progress {
    if run_finished(run) {
        Progress::Finished
    } else {
        match verdict_of(run.policy, run.step, run.retries, response) {
            Verdict::Settled(outcome) => Progress::Settled(outcome),
            Verdict::UpdateDue => Progress::UpdateDue,
            Verdict::RetryDue => Progress::RetryAfter(
                backoff_ms(run.policy.base_delay_ms as nat, run.retries) as u64,
            ),
        }
    }
}

impl Reconciler {
    /// A run over every pair of `repos` and `labels`, at its start.
    pub fn new(repos: Vec<Repository>, labels: Vec<WeekLabel>, policy: RetryPolicy) -> (run:
        Reconciler)
        ensures
            run@ == run_start(repository_views(repos@), label_views(labels@), policy),
            run_wf(run@),
    {
        Reconciler {
            repos,
            labels,
            policy,
            repo_index: 0,
            label_index: 0,
            step: Step::Create,
            retries: 0,
            outcomes: Vec::new(),
        }
    }

    /// Whether every pair is done.
    pub fn is_finished(&self) -> (finished: bool)
        ensures
            finished == run_finished(self@),
            finished == (run_request(self@) is None),
    {
        self.repo_index >= self.repos.len() || self.label_index >= self.labels.len()
    }

    /// The request to send next, or `None` once every pair is done.
    pub fn next_request(&self) -> (request: Option<Request>)
        ensures
            crate::repos::request_view(request) == run_request(self@),
    {
        if self.is_finished() {
            return None;
        }
        let repo = &self.repos[self.repo_index];
        let label = &self.labels[self.label_index];
        Some(
            match self.step {
                Step::Create => Request::create(repo.owner.as_str(), repo.name.as_str(), label),
                Step::Update => Request::update(repo.owner.as_str(), repo.name.as_str(), label),
            },
        )
    }

    /// Takes in the answer to the request that was due, and says what to do
    /// next.
    pub fn receive(&mut self, response: Response) -> (progress: Progress)
        ensures
            final(self)@ == run_after(old(self)@, response),
            progress == run_progress(old(self)@, response),
            run_wf(old(self)@) ==> run_wf(final(self)@),
    {
        if self.is_finished() {
            return Progress::Finished;
        }
        match judge(self.policy, self.step, self.retries, response) {
            Verdict::Settled(outcome) => {
                assert(self.repo_index < self.repos.len());
                assert(self.label_index < self.labels.len());
                self.outcomes.push(outcome);
                if self.label_index >= self.labels.len() - 1 {
                    self.repo_index = self.repo_index + 1;
                    self.label_index = 0;
                } else {
                    self.label_index = self.label_index + 1;
                }
                self.step = Step::Create;
                self.retries = 0;
                proof {
                    if run_wf(old(self)@) {
                        lemma_settled_keeps_wf(old(self)@, outcome);
                    }
                }
                Progress::Settled(outcome)
            },
            Verdict::UpdateDue => {
                self.step = Step::Update;
                self.retries = 0;
                Progress::UpdateDue
            },
            Verdict::RetryDue => {
                let delay = backoff_delay(self.policy.base_delay_ms, self.retries);
                self.retries = self.retries + 1;
                Progress::RetryAfter(delay)
            },
        }
    }
}

/// Recording an outcome keeps a run in a state that a run can reach.
pub proof fn lemma_settled_keeps_wf(run: ReconcilerView, outcome: ReconciliationOutcome)
    requires
        run_wf(run),
        !run_finished(run),
    ensures
        run_wf(run_settled(run, outcome)),
{
    let i = run.repo_index as int;
    let n = run.labels.len() as int;
    assert((i + 1) * n == i * n + n) by (nonlinear_arith);
}

/// A finished run holds one outcome for every pair of a repository and a
/// label, however many of them failed.
pub proof fn lemma_finished_run_is_complete(run: ReconcilerView)
    requires
        run_wf(run),
        run_finished(run),
    ensures
        run.outcomes.len() == run.repos.len() * run.labels.len(),
        run_request(run) is None,
{
    if run.labels.len() == 0 {
        assert(run.repos.len() * run.labels.len() == 0) by (nonlinear_arith)
            requires
                run.labels.len() == 0,
        ;
    }
}

/// A pair that fails does not stop the run, and does not touch the pairs
/// after it. Whatever the outcome of a pair, the create request of the next
/// pair is due after it: for the next label of the same repository, or for
/// the first label of the next repository. And that pair is created if its
/// request succeeds.
pub proof fn lemma_failure_is_isolated(
    run: ReconcilerView,
    response: Response,
    failure: Failure,
    next_status: u16,
)
    requires
        run_wf(run),
        !run_finished(run),
        verdict_of(run.policy, run.step, run.retries, response) == Verdict::Settled(
            ReconciliationOutcome::Failed(failure),
        ),
        200 <= next_status <= 299,
    ensures
        ({
            let next = run_after(run, response);
            &&& run_wf(next)
            &&& next.outcomes == run.outcomes.push(ReconciliationOutcome::Failed(failure))
            &&& next.step == Step::Create
            &&& next.retries == 0
            &&& run.label_index + 1 < run.labels.len() ==> next.repo_index == run.repo_index
                && next.label_index == run.label_index + 1
            &&& run.label_index + 1 == run.labels.len() ==> next.repo_index == run.repo_index + 1
                && next.label_index == 0
            &&& run_finished(next) <==> run.repo_index + 1 == run.repos.len() && run.label_index + 1
                == run.labels.len()
            &&& !run_finished(next) ==> run_progress(next, Response::Status(next_status))
                == Progress::Settled(ReconciliationOutcome::Created)
        }),
{
    lemma_settled_keeps_wf(run, ReconciliationOutcome::Failed(failure));
}

/// The outcomes of earlier pairs do not steer a run: two runs over the same
/// repositories and labels that hold equally many outcomes stand at the same
/// pair, whatever those outcomes were.
pub proof fn lemma_outcomes_do_not_steer(a: ReconcilerView, b: ReconcilerView)
    requires
        run_wf(a),
        run_wf(b),
        a.repos == b.repos,
        a.labels == b.labels,
        a.outcomes.len() == b.outcomes.len(),
    ensures
        a.repo_index == b.repo_index,
        a.label_index == b.label_index,
        run_finished(a) == run_finished(b),
{
    let n = a.labels.len() as int;
    if n > 0 {
        let (ia, ja) = (a.repo_index as int, a.label_index as int);
        let (ib, jb) = (b.repo_index as int, b.label_index as int);
        assert(ia == ib) by (nonlinear_arith)
            requires
                ia * n + ja == ib * n + jb,
                0 <= ja < n,
                0 <= jb < n,
        ;
    }
}

/// Wherever a run stands, the pair that is due is created if its create
/// request succeeds, whatever became of the pairs before it.
pub proof fn lemma_success_creates(run: ReconcilerView, status: u16)
    requires
        !run_finished(run),
        run.step == Step::Create,
        200 <= status <= 299,
    ensures
        run_progress(run, Response::Status(status)) == Progress::Settled(
            ReconciliationOutcome::Created,
        ),
        run_after(run, Response::Status(status)).outcomes == run.outcomes.push(
            ReconciliationOutcome::Created,
        ),
{
}

/// A conflict on create is answered with the update of the same label in
/// the same repository, carrying the same body, and the pair counts as
/// updated if that request succeeds.
pub proof fn lemma_conflict_leads_to_update(run: ReconcilerView, update_status: u16)
    requires
        !run_finished(run),
        run.step == Step::Create,
        200 <= update_status <= 299,
    ensures
        ({
            let repo = run.repos[run.repo_index as int];
            let label = run.labels[run.label_index as int];
            let next = run_after(run, Response::Status(STATUS_CONFLICT));
            &&& run_progress(run, Response::Status(STATUS_CONFLICT)) == Progress::UpdateDue
            &&& run_request(run) == Some(create_request(repo.owner, repo.name, label))
            &&& run_request(next) == Some(update_request(repo.owner, repo.name, label))
            &&& run_request(next)->0.body == run_request(run)->0.body
            &&& run_progress(next, Response::Status(update_status)) == Progress::Settled(
                ReconciliationOutcome::Updated,
            )
        }),
{
}

/// A request is sent again only while the policy allows: a run never holds
/// more retries of a request than the policy's attempts leave room for.
pub proof fn lemma_retries_are_bounded(run: ReconcilerView, response: Response)
    requires
        run.retries + 1 <= run.policy.max_attempts || run.retries == 0,
    ensures
        ({
            let next = run_after(run, response);
            next.retries + 1 <= next.policy.max_attempts || next.retries == 0
        }),
{
}

/// The labels of one repository in a remote store that keeps its promises,
/// by name.
pub type LabelStore = Map<Seq<char>, LabelBodyView>;

/// What such a store does with a create request: it refuses a label that
/// exists with a conflict, and adds any other.
pub open spec fn store_create(store: LabelStore, body: LabelBodyView) -> (LabelStore, Response) {
    if store.dom().contains(body.name) {
        (store, Response::Status(STATUS_CONFLICT))
    } else {
        (store.insert(body.name, body), Response::Status(201))
    }
}

/// What such a store does with an update request: it overwrites a label that
/// exists, and knows no other.
pub open spec fn store_update(store: LabelStore, name: Seq<char>, body: LabelBodyView) -> (
    LabelStore,
    Response,
) {
    if store.dom().contains(name) {
        (store.insert(name, body), Response::Status(200))
    } else {
        (store, Response::Status(404))
    }
}

/// The store and the outcome after one label was reconciled with such a
/// store: the create request, and the update request where the protocol
/// asks for it.
pub open spec fn store_reconciled(store: LabelStore, label: WeekLabelView, policy: RetryPolicy) -> (
    LabelStore,
    ReconciliationOutcome,
) {
    let created = store_create(store, body_of(label));
    match verdict_of(policy, Step::Create, 0, created.1) {
        Verdict::Settled(outcome) => (created.0, outcome),
        Verdict::RetryDue => (
            created.0,
            ReconciliationOutcome::Failed(Failure { step: Step::Create, response: created.1 }),
        ),
        Verdict::UpdateDue => {
            let updated = store_update(created.0, label.name, body_of(label));
            match verdict_of(policy, Step::Update, 0, updated.1) {
                Verdict::Settled(outcome) => (updated.0, outcome),
                _ => (
                    updated.0,
                    ReconciliationOutcome::Failed(
                        Failure { step: Step::Update, response: updated.1 },
                    ),
                ),
            }
        },
    }
}

/// Reconciling is idempotent. Against a store that keeps its promises, the
/// first run creates the label, or updates it if it was there before; a
/// second run with the same label updates it and leaves the store as the
/// first run left it. No run fails, and none creates a label twice.
pub proof fn lemma_reconcile_twice(store: LabelStore, label: WeekLabelView, policy: RetryPolicy)
    ensures
        ({
            let first = store_reconciled(store, label, policy);
            let second = store_reconciled(first.0, label, policy);
            &&& first.1 == if store.dom().contains(label.name) {
                ReconciliationOutcome::Updated
            } else {
                ReconciliationOutcome::Created
            }
            &&& first.0.dom().contains(label.name)
            &&& first.0[label.name] == body_of(label)
            &&& second.1 == ReconciliationOutcome::Updated
            &&& second.0 == first.0
        }),
{
    let first = store_reconciled(store, label, policy);
    let second = store_reconciled(first.0, label, policy);
    assert(second.0 =~= first.0);
}

/// How many pairs of a run ended in each way.
#[derive(Clone, Copy, Debug, PartialEq, Eq, Structural)]
pub struct Summary {
    pub unchanged: usize,
    pub created: usize,
    pub updated: usize,
    pub failed: usize,
}

/// The four kinds of outcome.
#[derive(Clone, Copy, Debug, PartialEq, Eq, Structural)]
pub enum OutcomeKind {
    Unchanged,
    Created,
    Updated,
    Failed,
}

/// The kind of an outcome; every failure is of the same kind, whatever its
/// reason.
pub open spec fn kind_of(outcome: ReconciliationOutcome) -> OutcomeKind {
    match outcome {
        ReconciliationOutcome::Unchanged => OutcomeKind::Unchanged,
        ReconciliationOutcome::Created => OutcomeKind::Created,
        ReconciliationOutcome::Updated => OutcomeKind::Updated,
        ReconciliationOutcome::Failed(_) => OutcomeKind::Failed,
    }
}

/// The number of outcomes of kind `kind` among `outcomes`.
pub open spec fn count_kind(outcomes: Seq<ReconciliationOutcome>, kind: OutcomeKind) -> nat
    decreases outcomes.len(),
{
    if outcomes.len() == 0 {
        0
    } else {
        count_kind(outcomes.drop_last(), kind) + if kind_of(outcomes.last()) == kind {
            1nat
        } else {
            0nat
        }
    }
}

/// Every outcome is of exactly one kind: the four counts add up to the
/// number of outcomes.
pub proof fn lemma_counts_add_up(outcomes: Seq<ReconciliationOutcome>)
    ensures
        count_kind(outcomes, OutcomeKind::Unchanged) + count_kind(outcomes, OutcomeKind::Created)
            + count_kind(outcomes, OutcomeKind::Updated) + count_kind(outcomes, OutcomeKind::Failed)
            == outcomes.len(),
    decreases outcomes.len(),
{
    if outcomes.len() > 0 {
        lemma_counts_add_up(outcomes.drop_last());
    }
}

/// Counts the outcomes of each kind.
pub fn summarize(outcomes: &Vec<ReconciliationOutcome>) -> (summary: Summary)
    ensures
        summary.unchanged == count_kind(outcomes@, OutcomeKind::Unchanged),
        summary.created == count_kind(outcomes@, OutcomeKind::Created),
        summary.updated == count_kind(outcomes@, OutcomeKind::Updated),
        summary.failed == count_kind(outcomes@, OutcomeKind::Failed),
        summary.unchanged + summary.created + summary.updated + summary.failed == outcomes.len(),
{
    let mut summary = Summary { unchanged: 0, created: 0, updated: 0, failed: 0 };
    let mut i: usize = 0;
    proof {
        assert(outcomes@.subrange(0, 0) =~= Seq::empty());
    }
    while i < outcomes.len()
        invariant
            i <= outcomes.len(),
            summary.unchanged == count_kind(outcomes@.subrange(0, i as int), OutcomeKind::Unchanged),
            summary.created == count_kind(outcomes@.subrange(0, i as int), OutcomeKind::Created),
            summary.updated == count_kind(outcomes@.subrange(0, i as int), OutcomeKind::Updated),
            summary.failed == count_kind(outcomes@.subrange(0, i as int), OutcomeKind::Failed),
            summary.unchanged + summary.created + summary.updated + summary.failed == i,
        decreases outcomes.len() - i,
    {
        proof {
            assert(outcomes@.subrange(0, i + 1).drop_last() =~= outcomes@.subrange(0, i as int));
        }
        match outcomes[i] {
            ReconciliationOutcome::Unchanged => {
                summary.unchanged = summary.unchanged + 1;
            },
            ReconciliationOutcome::Created => {
                summary.created = summary.created + 1;
            },
            ReconciliationOutcome::Updated => {
                summary.updated = summary.updated + 1;
            },
            ReconciliationOutcome::Failed(_) => {
                summary.failed = summary.failed + 1;
            },
        }
        i += 1;
    }
    proof {
        assert(outcomes@.subrange(0, outcomes.len() as int) =~= outcomes@);
    }
    summary
}

} // verus!
