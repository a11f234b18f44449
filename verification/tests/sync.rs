use week_labeler::labels::{labels_from_week, WeekLabel};
use week_labeler::repos::Repository;
use week_labeler::request::Method;
use week_labeler::sync::{
    backoff_delay, jittered_delay, judge, summarize, with_jitter, Failure, Progress,
    ReconciliationOutcome, Reconciler, Response, RetryPolicy, Step, Summary, Verdict,
};

const NO_RETRY: RetryPolicy = RetryPolicy { max_attempts: 1, base_delay_ms: 0 };

fn repo(owner: &str, name: &str) -> Repository {
    Repository { owner: String::from(owner), name: String::from(name) }
}

fn failed(step: Step, response: Response) -> ReconciliationOutcome {
    ReconciliationOutcome::Failed(Failure { step, response })
}

fn one_pair() -> Reconciler {
    Reconciler::new(vec![repo("acme", "widgets")], vec![WeekLabel::new(2025, 7)], NO_RETRY)
}

#[test]
fn create_success_is_created() {
    let mut run = one_pair();
    let request = run.next_request().unwrap();
    assert_eq!(request.method, Method::Post);
    assert_eq!(request.url, "https://api.github.com/repos/acme/widgets/labels");
    assert_eq!(
        run.receive(Response::Status(201)),
        Progress::Settled(ReconciliationOutcome::Created)
    );
    assert!(run.is_finished());
    assert!(run.next_request().is_none());
    assert_eq!(run.outcomes, vec![ReconciliationOutcome::Created]);
}

#[test]
fn conflict_on_create_leads_to_update_with_identical_body() {
    let mut run = one_pair();
    let create = run.next_request().unwrap();
    assert_eq!(run.receive(Response::Status(422)), Progress::UpdateDue);
    assert!(!run.is_finished());
    let update = run.next_request().unwrap();
    assert_eq!(update.method, Method::Patch);
    assert_eq!(update.url, "https://api.github.com/repos/acme/widgets/labels/week-2025-07");
    let (sent, resent) = (create.body.unwrap(), update.body.unwrap());
    assert_eq!(sent.name, "week-2025-07");
    assert_eq!(sent.name, resent.name);
    assert_eq!(sent.color, resent.color);
    assert_eq!(sent.description, resent.description);
    assert_eq!(
        run.receive(Response::Status(200)),
        Progress::Settled(ReconciliationOutcome::Updated)
    );
    assert!(run.is_finished());
    assert_eq!(run.outcomes, vec![ReconciliationOutcome::Updated]);
}

#[test]
fn reconciling_twice_creates_then_updates() {
    let mut stored: Vec<String> = Vec::new();
    let mut outcomes = Vec::new();
    for _ in 0..2 {
        let mut run = one_pair();
        while let Some(request) = run.next_request() {
            let name = request.body.as_ref().unwrap().name.clone();
            let response = match request.method {
                Method::Post if stored.contains(&name) => Response::Status(422),
                Method::Post => {
                    stored.push(name);
                    Response::Status(201)
                }
                Method::Patch if stored.contains(&name) => Response::Status(200),
                _ => Response::Status(404),
            };
            run.receive(response);
        }
        outcomes.extend(run.outcomes.clone());
    }
    assert_eq!(outcomes, vec![ReconciliationOutcome::Created, ReconciliationOutcome::Updated]);
    assert_eq!(stored, vec!["week-2025-07"]);
}

#[test]
fn failures_carry_the_step_and_the_response() {
    let mut run = one_pair();
    assert_eq!(
        run.receive(Response::Status(500)),
        Progress::Settled(failed(Step::Create, Response::Status(500)))
    );

    let mut run = one_pair();
    assert_eq!(
        run.receive(Response::NoAnswer),
        Progress::Settled(failed(Step::Create, Response::NoAnswer))
    );

    let mut run = one_pair();
    run.receive(Response::Status(422));
    assert_eq!(
        run.receive(Response::Status(404)),
        Progress::Settled(failed(Step::Update, Response::Status(404)))
    );

    let mut run = one_pair();
    run.receive(Response::Status(422));
    assert_eq!(
        run.receive(Response::NoAnswer),
        Progress::Settled(failed(Step::Update, Response::NoAnswer))
    );

    let mut run = one_pair();
    run.receive(Response::Status(422));
    assert_eq!(
        run.receive(Response::Status(422)),
        Progress::Settled(failed(Step::Update, Response::Status(422)))
    );
}

#[test]
fn success_is_any_status_from_200_to_299() {
    for (code, success) in [(199u16, false), (200, true), (204, true), (299, true), (300, false)] {
        let verdict = judge(NO_RETRY, Step::Create, 0, Response::Status(code));
        assert_eq!(verdict == Verdict::Settled(ReconciliationOutcome::Created), success);
        let verdict = judge(NO_RETRY, Step::Update, 0, Response::Status(code));
        assert_eq!(verdict == Verdict::Settled(ReconciliationOutcome::Updated), success);
    }
}

#[test]
fn a_failed_pair_does_not_stop_the_others() {
    let repos = vec![repo("acme", "widgets"), repo("acme", "gadgets")];
    let labels = labels_from_week(2025, 7, 2);
    let mut run = Reconciler::new(repos, labels, NO_RETRY);
    let mut urls = Vec::new();

    urls.push(run.next_request().unwrap().url);
    assert_eq!(
        run.receive(Response::Status(500)),
        Progress::Settled(failed(Step::Create, Response::Status(500)))
    );
    assert_eq!((run.repo_index, run.label_index), (0, 1));
    let request = run.next_request().unwrap();
    assert_eq!(request.body.as_ref().unwrap().name, "week-2025-08");
    urls.push(request.url);
    assert_eq!(
        run.receive(Response::Status(201)),
        Progress::Settled(ReconciliationOutcome::Created)
    );
    assert_eq!((run.repo_index, run.label_index), (1, 0));
    let request = run.next_request().unwrap();
    assert_eq!(request.body.as_ref().unwrap().name, "week-2025-07");
    urls.push(request.url);
    assert_eq!(
        run.receive(Response::Status(201)),
        Progress::Settled(ReconciliationOutcome::Created)
    );
    urls.push(run.next_request().unwrap().url);
    assert_eq!(
        run.receive(Response::NoAnswer),
        Progress::Settled(failed(Step::Create, Response::NoAnswer))
    );
    assert!(run.is_finished());
    assert_eq!(
        urls,
        vec![
            "https://api.github.com/repos/acme/widgets/labels",
            "https://api.github.com/repos/acme/widgets/labels",
            "https://api.github.com/repos/acme/gadgets/labels",
            "https://api.github.com/repos/acme/gadgets/labels",
        ]
    );
    assert_eq!(
        run.outcomes,
        vec![
            failed(Step::Create, Response::Status(500)),
            ReconciliationOutcome::Created,
            ReconciliationOutcome::Created,
            failed(Step::Create, Response::NoAnswer),
        ]
    );
}

#[test]
fn a_run_holds_one_outcome_per_pair() {
    let repos: Vec<Repository> = (0..3).map(|i| repo("acme", &format!("r{}", i))).collect();
    let labels = labels_from_week(2025, 50, 5);
    let mut run = Reconciler::new(repos, labels, NO_RETRY);
    let mut sent = 0;
    while let Some(_) = run.next_request() {
        sent += 1;
        run.receive(if sent % 2 == 0 { Response::Status(201) } else { Response::Status(500) });
    }
    assert_eq!(sent, 15);
    assert_eq!(run.outcomes.len(), 15);
    assert_eq!(run.repo_index, 3);
    assert_eq!(run.label_index, 0);
}

#[test]
fn runs_without_pairs_are_finished_at_once() {
    let no_repos = Reconciler::new(Vec::new(), labels_from_week(2025, 7, 3), NO_RETRY);
    assert!(no_repos.is_finished());
    assert!(no_repos.next_request().is_none());
    let mut no_labels = Reconciler::new(vec![repo("acme", "widgets")], Vec::new(), NO_RETRY);
    assert!(no_labels.is_finished());
    assert!(no_labels.next_request().is_none());
    assert_eq!(no_labels.receive(Response::Status(201)), Progress::Finished);
    assert!(no_labels.outcomes.is_empty());
}

#[test]
fn finished_run_ignores_further_answers() {
    let mut run = one_pair();
    run.receive(Response::Status(201));
    assert_eq!(run.receive(Response::Status(500)), Progress::Finished);
    assert_eq!(run.receive(Response::Status(422)), Progress::Finished);
    assert_eq!(run.outcomes, vec![ReconciliationOutcome::Created]);
}

#[test]
fn rate_limited_requests_are_retried_with_backoff() {
    let policy = RetryPolicy { max_attempts: 3, base_delay_ms: 500 };
    let mut run =
        Reconciler::new(vec![repo("acme", "widgets")], vec![WeekLabel::new(2025, 7)], policy);
    assert_eq!(run.receive(Response::Status(429)), Progress::RetryAfter(500));
    assert_eq!(run.next_request().unwrap().method, Method::Post);
    assert_eq!(run.receive(Response::Status(403)), Progress::RetryAfter(1000));
    assert_eq!(run.next_request().unwrap().method, Method::Post);
    assert_eq!(
        run.receive(Response::Status(429)),
        Progress::Settled(failed(Step::Create, Response::Status(429)))
    );
    assert!(run.is_finished());
}

#[test]
fn retries_start_anew_for_the_update() {
    let policy = RetryPolicy { max_attempts: 2, base_delay_ms: 100 };
    let mut run =
        Reconciler::new(vec![repo("acme", "widgets")], vec![WeekLabel::new(2025, 7)], policy);
    assert_eq!(run.receive(Response::Status(429)), Progress::RetryAfter(100));
    assert_eq!(run.receive(Response::Status(422)), Progress::UpdateDue);
    assert_eq!(run.retries, 0);
    assert_eq!(run.receive(Response::Status(429)), Progress::RetryAfter(100));
    assert_eq!(run.next_request().unwrap().method, Method::Patch);
    assert_eq!(
        run.receive(Response::Status(200)),
        Progress::Settled(ReconciliationOutcome::Updated)
    );
}

#[test]
fn without_attempts_to_spare_a_rate_limit_fails_the_pair() {
    for max_attempts in [0u32, 1] {
        let policy = RetryPolicy { max_attempts, base_delay_ms: 100 };
        assert_eq!(
            judge(policy, Step::Create, 0, Response::Status(429)),
            Verdict::Settled(failed(Step::Create, Response::Status(429)))
        );
        assert_eq!(
            judge(policy, Step::Update, 0, Response::Status(403)),
            Verdict::Settled(failed(Step::Update, Response::Status(403)))
        );
    }
    let policy = RetryPolicy { max_attempts: u32::MAX, base_delay_ms: 1 };
    assert_eq!(judge(policy, Step::Create, u32::MAX - 2, Response::Status(429)), Verdict::RetryDue);
    assert_eq!(
        judge(policy, Step::Create, u32::MAX - 1, Response::Status(429)),
        Verdict::Settled(failed(Step::Create, Response::Status(429)))
    );
    assert_eq!(
        judge(policy, Step::Create, u32::MAX, Response::Status(429)),
        Verdict::Settled(failed(Step::Create, Response::Status(429)))
    );
}

#[test]
fn only_rate_limits_are_retried() {
    let policy = RetryPolicy { max_attempts: 5, base_delay_ms: 100 };
    assert_eq!(judge(policy, Step::Create, 0, Response::Status(429)), Verdict::RetryDue);
    assert_eq!(judge(policy, Step::Create, 0, Response::Status(403)), Verdict::RetryDue);
    assert_eq!(judge(policy, Step::Update, 3, Response::Status(403)), Verdict::RetryDue);
    assert_eq!(
        judge(policy, Step::Create, 0, Response::Status(500)),
        Verdict::Settled(failed(Step::Create, Response::Status(500)))
    );
    assert_eq!(
        judge(policy, Step::Create, 0, Response::NoAnswer),
        Verdict::Settled(failed(Step::Create, Response::NoAnswer))
    );
    assert_eq!(judge(policy, Step::Create, 0, Response::Status(422)), Verdict::UpdateDue);
    assert_eq!(
        judge(policy, Step::Update, 0, Response::Status(422)),
        Verdict::Settled(failed(Step::Update, Response::Status(422)))
    );
}

#[test]
fn backoff_doubles_and_saturates() {
    assert_eq!(backoff_delay(250, 0), 250);
    assert_eq!(backoff_delay(250, 1), 500);
    assert_eq!(backoff_delay(250, 2), 1000);
    assert_eq!(backoff_delay(250, 10), 256000);
    assert_eq!(backoff_delay(0, 40), 0);
    assert_eq!(backoff_delay(1, 63), 1 << 63);
    assert_eq!(backoff_delay(1, 64), u64::MAX);
    assert_eq!(backoff_delay(3, 63), u64::MAX);
    assert_eq!(backoff_delay(u64::MAX, 0), u64::MAX);
    assert_eq!(backoff_delay(u64::MAX, 1), u64::MAX);
    assert_eq!(backoff_delay(7, 1000), u64::MAX);
    assert_eq!(backoff_delay(0, u32::MAX), 0);
    assert_eq!(backoff_delay(5, u32::MAX), u64::MAX);
}

#[test]
fn jitter_keeps_the_lower_half() {
    assert_eq!(with_jitter(1000, 0), 500);
    assert_eq!(with_jitter(1000, 255), 1000);
    assert_eq!(with_jitter(1000, 51), 600);
    assert_eq!(with_jitter(1001, 0), 501);
    assert_eq!(with_jitter(1001, 255), 1001);
    assert_eq!(with_jitter(0, 200), 0);
    assert_eq!(with_jitter(1, 0), 1);
    assert_eq!(with_jitter(u64::MAX, 255), u64::MAX);
    assert_eq!(with_jitter(u64::MAX, 0), u64::MAX - u64::MAX / 2);
}

#[test]
fn random_jitter_stays_in_range() {
    for _ in 0..200 {
        let wait = jittered_delay(1000);
        assert!((500..=1000).contains(&wait));
    }
    assert_eq!(jittered_delay(0), 0);
}

#[test]
fn random_jitter_is_the_jitter_of_some_sample() {
    let possible: Vec<u64> = (0..=255u8).map(|sample| with_jitter(100_000, sample)).collect();
    for _ in 0..200 {
        assert!(possible.contains(&jittered_delay(100_000)));
    }
}

#[test]
fn summary_counts_each_kind() {
    let outcomes = vec![
        ReconciliationOutcome::Created,
        failed(Step::Create, Response::Status(500)),
        ReconciliationOutcome::Updated,
        ReconciliationOutcome::Created,
        failed(Step::Update, Response::NoAnswer),
        ReconciliationOutcome::Unchanged,
        ReconciliationOutcome::Created,
    ];
    assert_eq!(
        summarize(&outcomes),
        Summary { unchanged: 1, created: 3, updated: 1, failed: 2 }
    );
    assert_eq!(
        summarize(&Vec::new()),
        Summary { unchanged: 0, created: 0, updated: 0, failed: 0 }
    );
}
