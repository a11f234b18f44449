use week_labeler::config::file::{ConfigError, ConfigFile};
use week_labeler::repos::{
    resolve_all, resolve_repository, Enumeration, EnumerationError, EnumerationStatus,
    RepoRecord, RepoResponse, RepositoryError, SyncScope,
};
use week_labeler::request::Method;

fn record(name: Option<&str>, owner: Option<&str>) -> RepoRecord {
    RepoRecord { name: name.map(String::from), owner_login: owner.map(String::from) }
}

fn page(from: usize, count: usize) -> Vec<RepoRecord> {
    (from..from + count).map(|i| record(Some(&format!("repo-{}", i)), Some("acme"))).collect()
}

fn collected(enumeration: &Enumeration) -> Vec<String> {
    enumeration.repos.iter().map(|r| r.name.clone().unwrap_or_default()).collect()
}

fn config(org_name: Option<&str>, repo: Option<&str>) -> ConfigFile {
    ConfigFile {
        github_token: String::from("token"),
        org_name: org_name.map(String::from),
        repo: repo.map(String::from),
    }
}

#[test]
fn scope_prefers_repo_over_org_over_user() {
    assert!(matches!(
        config(Some("acme"), Some("acme/widgets")).scope(),
        SyncScope::SingleRepo(name) if name == "acme/widgets"
    ));
    assert!(matches!(
        config(None, Some("acme/widgets")).scope(),
        SyncScope::SingleRepo(name) if name == "acme/widgets"
    ));
    assert!(matches!(
        config(Some("acme"), None).scope(),
        SyncScope::Organization(name) if name == "acme"
    ));
    assert!(matches!(config(None, None).scope(), SyncScope::AuthenticatedUser));
}

#[test]
fn configuration_requires_the_credential() {
    let config =
        ConfigFile::new(Some(String::from("token")), None, Some(String::from("acme/widgets")))
            .unwrap();
    assert_eq!(config.github_token, "token");
    assert_eq!(config.org_name, None);
    assert_eq!(config.repo.as_deref(), Some("acme/widgets"));
    let config = ConfigFile::new(Some(String::new()), Some(String::from("acme")), None).unwrap();
    assert_eq!(config.github_token, "");
    assert_eq!(config.org_name.as_deref(), Some("acme"));
    assert_eq!(
        ConfigFile::new(None, Some(String::from("acme")), None).unwrap_err(),
        ConfigError::MissingToken
    );
    assert_eq!(ConfigFile::new(None, None, None).unwrap_err(), ConfigError::MissingToken);
}

#[test]
fn enumeration_requests_by_scope() {
    let single = Enumeration::new(SyncScope::SingleRepo(String::from("acme/widgets")));
    let request = single.next_request().unwrap();
    assert_eq!(request.method, Method::Get);
    assert_eq!(request.url, "https://api.github.com/repos/acme/widgets");
    assert!(request.body.is_none());

    let org = Enumeration::new(SyncScope::Organization(String::from("acme")));
    let request = org.next_request().unwrap();
    assert_eq!(request.method, Method::Get);
    assert_eq!(request.url, "https://api.github.com/orgs/acme/repos?per_page=100&page=1");

    let user = Enumeration::new(SyncScope::AuthenticatedUser);
    let request = user.next_request().unwrap();
    assert_eq!(request.url, "https://api.github.com/user/repos?per_page=100&page=1");
}

#[test]
fn full_page_then_empty_page_ends_the_enumeration() {
    let mut enumeration = Enumeration::new(SyncScope::Organization(String::from("acme")));
    assert!(!enumeration.is_finished());
    enumeration.receive(RepoResponse::Listing(page(0, 100)));
    assert!(!enumeration.is_finished());
    assert_eq!(
        enumeration.next_request().unwrap().url,
        "https://api.github.com/orgs/acme/repos?per_page=100&page=2"
    );
    enumeration.receive(RepoResponse::Listing(Vec::new()));
    assert!(enumeration.is_finished());
    assert!(enumeration.next_request().is_none());
    assert_eq!(enumeration.status, EnumerationStatus::Complete);
    assert_eq!(enumeration.error(), None);
    assert_eq!(enumeration.repos.len(), 100);
    let expected: Vec<String> = (0..100).map(|i| format!("repo-{}", i)).collect();
    assert_eq!(collected(&enumeration), expected);
}

#[test]
fn several_pages_are_collected_in_order() {
    let mut enumeration = Enumeration::new(SyncScope::AuthenticatedUser);
    enumeration.receive(RepoResponse::Listing(page(0, 100)));
    enumeration.receive(RepoResponse::Listing(page(100, 100)));
    enumeration.receive(RepoResponse::Listing(page(200, 17)));
    assert_eq!(enumeration.page, 4);
    assert_eq!(
        enumeration.next_request().unwrap().url,
        "https://api.github.com/user/repos?per_page=100&page=4"
    );
    enumeration.receive(RepoResponse::Listing(Vec::new()));
    assert_eq!(enumeration.status, EnumerationStatus::Complete);
    let expected: Vec<String> = (0..217).map(|i| format!("repo-{}", i)).collect();
    assert_eq!(collected(&enumeration), expected);
}

#[test]
fn empty_first_page_gives_no_repository() {
    let mut enumeration = Enumeration::new(SyncScope::AuthenticatedUser);
    enumeration.receive(RepoResponse::Listing(Vec::new()));
    assert_eq!(enumeration.status, EnumerationStatus::Complete);
    assert!(enumeration.repos.is_empty());
    assert!(enumeration.next_request().is_none());
}

#[test]
fn unrecognizable_page_aborts_and_keeps_what_was_collected() {
    let mut enumeration = Enumeration::new(SyncScope::Organization(String::from("acme")));
    enumeration.receive(RepoResponse::Listing(page(0, 100)));
    enumeration.receive(RepoResponse::Single(record(None, None)));
    assert!(enumeration.is_finished());
    assert_eq!(enumeration.status, EnumerationStatus::Aborted(EnumerationError::NotAListing));
    assert_eq!(enumeration.error(), Some(EnumerationError::NotAListing));
    assert_eq!(enumeration.repos.len(), 100);
    assert!(enumeration.next_request().is_none());
}

#[test]
fn failed_request_aborts_and_keeps_what_was_collected() {
    let mut enumeration = Enumeration::new(SyncScope::AuthenticatedUser);
    enumeration.receive(RepoResponse::Listing(page(0, 3)));
    enumeration.receive(RepoResponse::Failed);
    assert_eq!(enumeration.status, EnumerationStatus::Aborted(EnumerationError::RequestFailed));
    assert_eq!(collected(&enumeration), vec!["repo-0", "repo-1", "repo-2"]);
}

#[test]
fn finished_enumeration_ignores_further_answers() {
    let mut enumeration = Enumeration::new(SyncScope::AuthenticatedUser);
    enumeration.receive(RepoResponse::Listing(page(0, 2)));
    enumeration.receive(RepoResponse::Listing(Vec::new()));
    enumeration.receive(RepoResponse::Listing(page(2, 5)));
    enumeration.receive(RepoResponse::Failed);
    assert_eq!(enumeration.status, EnumerationStatus::Complete);
    assert_eq!(enumeration.repos.len(), 2);
    assert_eq!(enumeration.page, 2);
}

#[test]
fn page_counter_stops_at_its_limit() {
    let mut enumeration = Enumeration::new(SyncScope::AuthenticatedUser);
    enumeration.page = u32::MAX;
    assert_eq!(
        enumeration.next_request().unwrap().url,
        "https://api.github.com/user/repos?per_page=100&page=4294967295"
    );
    enumeration.receive(RepoResponse::Listing(page(0, 1)));
    assert_eq!(enumeration.status, EnumerationStatus::Aborted(EnumerationError::PageLimit));
    assert_eq!(enumeration.repos.len(), 1);
    assert_eq!(enumeration.page, u32::MAX);
}

#[test]
fn single_repository_lookup() {
    let mut enumeration = Enumeration::new(SyncScope::SingleRepo(String::from("acme/widgets")));
    enumeration.receive(RepoResponse::Single(record(Some("widgets"), Some("acme"))));
    assert_eq!(enumeration.status, EnumerationStatus::Complete);
    assert_eq!(collected(&enumeration), vec!["widgets"]);
    assert!(enumeration.next_request().is_none());
}

#[test]
fn single_repository_lookup_failures_give_an_empty_result() {
    let scope = || SyncScope::SingleRepo(String::from("acme/widgets"));

    let mut not_found = Enumeration::new(scope());
    not_found.receive(RepoResponse::Single(record(None, None)));
    assert_eq!(not_found.status, EnumerationStatus::Aborted(EnumerationError::NotARepository));
    assert!(not_found.repos.is_empty());

    let mut list = Enumeration::new(scope());
    list.receive(RepoResponse::Listing(page(0, 2)));
    assert_eq!(list.status, EnumerationStatus::Aborted(EnumerationError::NotARepository));
    assert!(list.repos.is_empty());

    let mut failed = Enumeration::new(scope());
    failed.receive(RepoResponse::Failed);
    assert_eq!(failed.status, EnumerationStatus::Aborted(EnumerationError::RequestFailed));
    assert!(failed.repos.is_empty());
}

#[test]
fn resolve_uses_the_organization_as_owner() {
    let org = Some(String::from("acme"));
    let repository = resolve_repository(&org, &record(Some("widgets"), Some("someone"))).unwrap();
    assert_eq!(repository.owner, "acme");
    assert_eq!(repository.name, "widgets");
    let repository = resolve_repository(&org, &record(Some("widgets"), None)).unwrap();
    assert_eq!(repository.owner, "acme");
}

#[test]
fn resolve_falls_back_to_the_embedded_owner() {
    let repository = resolve_repository(&None, &record(Some("widgets"), Some("someone"))).unwrap();
    assert_eq!(repository.owner, "someone");
    assert_eq!(repository.name, "widgets");
}

#[test]
fn resolve_reports_missing_fields() {
    let org = Some(String::from("acme"));
    assert_eq!(
        resolve_repository(&None, &record(None, Some("someone"))).unwrap_err(),
        RepositoryError::MissingName
    );
    assert_eq!(
        resolve_repository(&org, &record(None, None)).unwrap_err(),
        RepositoryError::MissingName
    );
    assert_eq!(
        resolve_repository(&None, &record(None, None)).unwrap_err(),
        RepositoryError::MissingName
    );
    assert_eq!(
        resolve_repository(&None, &record(Some("widgets"), None)).unwrap_err(),
        RepositoryError::MissingOwner
    );
}

#[test]
fn resolve_all_keeps_order_and_reports_what_it_skips() {
    let records = vec![
        record(Some("a"), Some("x")),
        record(None, Some("x")),
        record(Some("b"), None),
        record(Some("c"), Some("y")),
    ];
    let targets = resolve_all(&None, &records);
    let found: Vec<(String, String)> =
        targets.repositories.iter().map(|r| (r.owner.clone(), r.name.clone())).collect();
    assert_eq!(
        found,
        vec![(String::from("x"), String::from("a")), (String::from("y"), String::from("c"))]
    );
    assert_eq!(
        targets.skipped,
        vec![(1, RepositoryError::MissingName), (2, RepositoryError::MissingOwner)]
    );

    let org = Some(String::from("acme"));
    let targets = resolve_all(&org, &records);
    let found: Vec<(String, String)> =
        targets.repositories.iter().map(|r| (r.owner.clone(), r.name.clone())).collect();
    assert_eq!(
        found,
        vec![
            (String::from("acme"), String::from("a")),
            (String::from("acme"), String::from("b")),
            (String::from("acme"), String::from("c")),
        ]
    );
    assert_eq!(targets.skipped, vec![(1, RepositoryError::MissingName)]);
    assert!(resolve_all(&org, &Vec::new()).repositories.is_empty());
}
