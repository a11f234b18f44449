//! Which repositories a run targets, and how they are enumerated.
//!
//! The targets are one repository, the repositories of an organization, or
//! those of the authenticated user. Listings come in pages. The library
//! decides which page to ask for and when to stop; its caller sends each
//! request and hands back what was received.

use vstd::prelude::*;
use crate::tools::text::text_view;
use crate::request::{
    lookup_request,
    org_page_request,
    user_page_request,
    Request,
    RequestView,
};

verus! {

/// The first page of a listing.
pub const FIRST_PAGE: u32 = 1;

/// The selection of repositories that a run targets.
#[derive(Clone, Debug)]
pub enum SyncScope {
    /// One repository, given as `owner/name`.
    SingleRepo(String),
    /// Every repository of an organization.
    Organization(String),
    /// Every repository of the authenticated user.
    AuthenticatedUser,
}

/// What a `SyncScope` holds, as mathematical values.
pub ghost enum SyncScopeView {
    SingleRepo(Seq<char>),
    Organization(Seq<char>),
    AuthenticatedUser,
}

impl View for SyncScope {
    type V = SyncScopeView;

    open spec fn view(&self) -> SyncScopeView {
        match self {
            SyncScope::SingleRepo(name) => SyncScopeView::SingleRepo(name@),
            SyncScope::Organization(name) => SyncScopeView::Organization(name@),
            SyncScope::AuthenticatedUser => SyncScopeView::AuthenticatedUser,
        }
    }
}

/// The scope that a configuration selects: its repository if it names one,
/// else its organization if it names one, else the authenticated user.
pub open spec fn scope_of(repo: Option<Seq<char>>, org_name: Option<Seq<char>>) -> SyncScopeView {
    match repo {
        Some(name) => SyncScopeView::SingleRepo(name),
        None => match org_name {
            Some(name) => SyncScopeView::Organization(name),
            None => SyncScopeView::AuthenticatedUser,
        },
    }
}

/// One repository as a listing reports it. A field is `None` where the
/// listing holds no text for it.
#[derive(Clone, Debug)]
pub struct RepoRecord {
    /// The repository's name.
    pub name: Option<String>,
    /// The login of the repository's owner.
    pub owner_login: Option<String>,
}

/// What a `RepoRecord` holds, as mathematical values.
pub ghost struct RepoRecordView {
    pub name: Option<Seq<char>>,
    pub owner_login: Option<Seq<char>>,
}

impl View for RepoRecord {
    type V = RepoRecordView;

    open spec fn view(&self) -> RepoRecordView {
        RepoRecordView { name: text_view(self.name), owner_login: text_view(self.owner_login) }
    }
}

/// The views of a sequence of records.
pub open spec fn record_views(records: Seq<RepoRecord>) -> Seq<RepoRecordView> {
    Seq::new(records.len(), |i: int| records[i]@)
}

/// What came back for a request of the enumeration.
#[derive(Clone, Debug)]
pub enum RepoResponse {
    /// A list, with its entries in the order received.
    Listing(Vec<RepoRecord>),
    /// A single document, read as one repository.
    Single(RepoRecord),
    /// Nothing usable: the request failed or the answer could not be read.
    Failed,
}

/// What a `RepoResponse` holds, as mathematical values.
pub ghost enum RepoResponseView {
    Listing(Seq<RepoRecordView>),
    Single(RepoRecordView),
    Failed,
}

impl View for RepoResponse {
    type V = RepoResponseView;

    open spec fn view(&self) -> RepoResponseView {
        match self {
            RepoResponse::Listing(entries) => RepoResponseView::Listing(record_views(entries@)),
            RepoResponse::Single(record) => RepoResponseView::Single(record@),
            RepoResponse::Failed => RepoResponseView::Failed,
        }
    }
}

/// Why an enumeration stopped before its listing was complete.
#[derive(Clone, Copy, Debug, PartialEq, Eq, Structural)]
pub enum EnumerationError {
    /// A request failed or its answer could not be read.
    RequestFailed,
    /// A page of a listing was not a list, as when the remote side limits
    /// the rate of requests or refuses the credential.
    NotAListing,
    /// The answer to the lookup of one repository did not describe a
    /// repository.
    NotARepository,
    /// The listing has more pages than can be counted.
    PageLimit,
}

/// How far an enumeration has come.
#[derive(Clone, Copy, Debug, PartialEq, Eq, Structural)]
pub enum EnumerationStatus {
    /// A request is due.
    InProgress,
    /// Every repository of the scope has been collected.
    Complete,
    /// The enumeration stopped early; what was collected until then stays.
    Aborted(EnumerationError),
}

/// An enumeration of the repositories of a scope.
#[derive(Clone, Debug)]
pub struct Enumeration {
    /// The scope that is enumerated.
    pub scope: SyncScope,
    /// The page that is asked for next.
    pub page: u32,
    /// The repositories collected so far, in the order received.
    pub repos: Vec<RepoRecord>,
    /// Whether a request is due, and if not, why.
    pub status: EnumerationStatus,
}

/// What an `Enumeration` holds, as mathematical values.
pub ghost struct EnumerationView {
    pub scope: SyncScopeView,
    pub page: nat,
    pub repos: Seq<RepoRecordView>,
    pub status: EnumerationStatus,
}

impl View for Enumeration {
    type V = EnumerationView;

    open spec fn view(&self) -> EnumerationView {
        EnumerationView {
            scope: self.scope@,
            page: self.page as nat,
            repos: record_views(self.repos@),
            status: self.status,
        }
    }
}

/// The view of an optional request.
pub open spec fn request_view(request: Option<Request>) -> Option<RequestView> {
    match request {
        Some(r) => Some(r@),
        None => None,
    }
}

/// An enumeration at its start: nothing collected, the first page due.
pub open spec fn enumeration_start(scope: SyncScopeView) -> EnumerationView {
    EnumerationView {
        scope,
        page: FIRST_PAGE as nat,
        repos: Seq::empty(),
        status: EnumerationStatus::InProgress,
    }
}

/// The request that is due in a state, if any: the lookup of the one
/// repository, or the page that comes next.
pub open spec fn due_request(state: EnumerationView) -> Option<RequestView> {
    if state.status is InProgress {
        Some(
            match state.scope {
                SyncScopeView::SingleRepo(full_name) => lookup_request(full_name),
                SyncScopeView::Organization(org) => org_page_request(org, state.page),
                SyncScopeView::AuthenticatedUser => user_page_request(state.page),
            },
        )
    } else {
        None
    }
}

/// The state with another status and everything else unchanged.
pub open spec fn with_status(state: EnumerationView, status: EnumerationStatus) -> EnumerationView {
    EnumerationView { status, ..state }
}

/// The state after the one repository of the scope was looked up. A document
/// with a name is the repository; anything else ends the enumeration with
/// nothing collected.
pub open spec fn after_lookup(state: EnumerationView, response: RepoResponseView) -> EnumerationView {
    match response {
        RepoResponseView::Single(record) => if record.name is Some {
            EnumerationView {
                repos: state.repos.push(record),
                status: EnumerationStatus::Complete,
                ..state
            }
        } else {
            with_status(state, EnumerationStatus::Aborted(EnumerationError::NotARepository))
        },
        RepoResponseView::Listing(_) => with_status(
            state,
            EnumerationStatus::Aborted(EnumerationError::NotARepository),
        ),
        RepoResponseView::Failed => with_status(
            state,
            EnumerationStatus::Aborted(EnumerationError::RequestFailed),
        ),
    }
}

/// The state after a page of a listing came back. An empty page completes
/// the enumeration. A page with entries adds them, in order, and makes the
/// next page due. Anything else stops the enumeration and keeps what was
/// collected.
pub open spec fn after_page(state: EnumerationView, response: RepoResponseView) -> EnumerationView {
    match response {
        RepoResponseView::Listing(entries) => if entries.len() == 0 {
            with_status(state, EnumerationStatus::Complete)
        } else if state.page >= u32::MAX {
            EnumerationView {
                repos: state.repos + entries,
                status: EnumerationStatus::Aborted(EnumerationError::PageLimit),
                ..state
            }
        } else {
            EnumerationView { repos: state.repos + entries, page: state.page + 1, ..state }
        },
        RepoResponseView::Single(_) => with_status(
            state,
            EnumerationStatus::Aborted(EnumerationError::NotAListing),
        ),
        RepoResponseView::Failed => with_status(
            state,
            EnumerationStatus::Aborted(EnumerationError::RequestFailed),
        ),
    }
}

/// The state after the answer to the due request came back. A state in
/// which no request is due stays as it is.
pub open spec fn after_response(state: EnumerationView, response: RepoResponseView) -> EnumerationView {
    if !(state.status is InProgress) {
        state
    } else if state.scope is SingleRepo {
        after_lookup(state, response)
    } else {
        after_page(state, response)
    }
}

impl Enumeration {
    /// An enumeration of `scope`, at its start.
    pub fn new(scope: SyncScope) -> (enumeration: Enumeration)
        ensures
            enumeration@ == enumeration_start(scope@),
    {
        let enumeration = Enumeration {
            scope,
            page: FIRST_PAGE,
            repos: Vec::new(),
            status: EnumerationStatus::InProgress,
        };
        assert(record_views(enumeration.repos@) =~= Seq::empty());
        enumeration
    }

    /// Whether no request is due any more.
    pub fn is_finished(&self) -> (finished: bool)
        ensures
            finished == !(self@.status is InProgress),
            finished == (due_request(self@) is None),
    {
        match self.status {
            EnumerationStatus::InProgress => false,
            _ => true,
        }
    }

    /// Why the enumeration stopped early, if it did.
    pub fn error(&self) -> (error: Option<EnumerationError>)
        ensures
            error == match self@.status {
                EnumerationStatus::Aborted(e) => Some(e),
                _ => None,
            },
    {
        match self.status {
            EnumerationStatus::Aborted(e) => Some(e),
            _ => None,
        }
    }

    /// The request to send next, or `None` once the enumeration is finished.
    pub fn next_request(&self) -> (request: Option<Request>)
        ensures
            request_view(request) == due_request(self@),
    {
        match self.status {
            EnumerationStatus::InProgress => Some(
                match &self.scope {
                    SyncScope::SingleRepo(full_name) => Request::lookup(full_name.as_str()),
                    SyncScope::Organization(org) => Request::org_page(org.as_str(), self.page),
                    SyncScope::AuthenticatedUser => Request::user_page(self.page),
                },
            ),
            _ => None,
        }
    }

    /// Takes in the answer to the request that was due.
    pub fn receive(&mut self, response: RepoResponse)
        ensures
            final(self)@ == after_response(old(self)@, response@),
    {
        match self.status {
            EnumerationStatus::InProgress => {},
            _ => {
                return ;
            },
        }
        let paged = match &self.scope {
            SyncScope::SingleRepo(_) => false,
            _ => true,
        };
        match response {
            RepoResponse::Failed => {
                self.status = EnumerationStatus::Aborted(EnumerationError::RequestFailed);
            },
            RepoResponse::Single(record) => {
                if paged {
                    self.status = EnumerationStatus::Aborted(EnumerationError::NotAListing);
                } else if record.name.is_some() {
                    self.repos.push(record);
                    self.status = EnumerationStatus::Complete;
                    assert(record_views(self.repos@) =~= record_views(old(self).repos@).push(
                        record@,
                    ));
                } else {
                    self.status = EnumerationStatus::Aborted(EnumerationError::NotARepository);
                }
            },
            RepoResponse::Listing(entries) => {
                if !paged {
                    self.status = EnumerationStatus::Aborted(EnumerationError::NotARepository);
                } else if entries.len() == 0 {
                    self.status = EnumerationStatus::Complete;
                } else {
                    let mut entries = entries;
                    let ghost added = record_views(entries@);
                    self.repos.append(&mut entries);
                    assert(record_views(self.repos@) =~= record_views(old(self).repos@) + added);
                    if self.page == u32::MAX {
                        self.status = EnumerationStatus::Aborted(EnumerationError::PageLimit);
                    } else {
                        self.page = self.page + 1;
                    }
                }
            },
        }
    }
}

/// A repository that labels can be applied to.
#[derive(Clone, Debug)]
pub struct Repository {
    /// Who the repository belongs to.
    pub owner: String,
    /// The repository's name.
    pub name: String,
}

/// What a `Repository` holds, as mathematical values.
pub ghost struct RepositoryView {
    pub owner: Seq<char>,
    pub name: Seq<char>,
}

impl View for Repository {
    type V = RepositoryView;

    open spec fn view(&self) -> RepositoryView {
        RepositoryView { owner: self.owner@, name: self.name@ }
    }
}

/// The views of a sequence of repositories.
pub open spec fn repository_views(repos: Seq<Repository>) -> Seq<RepositoryView> {
    Seq::new(repos.len(), |i: int| repos[i]@)
}

/// Why a record does not name a repository that can be labelled.
#[derive(Clone, Copy, Debug, PartialEq, Eq, Structural)]
pub enum RepositoryError {
    /// The record holds no name.
    MissingName,
    /// No organization is configured and the record holds no owner.
    MissingOwner,
}

/// The repository that a record stands for. Its owner is the configured
/// organization, or else the owner that the record itself names. A record
/// without a name is refused whatever its owner.
pub open spec fn resolved(org_name: Option<Seq<char>>, record: RepoRecordView) -> Result<
    RepositoryView,
    RepositoryError,
> {
    match record.name {
        None => Err(RepositoryError::MissingName),
        Some(name) => match org_name {
            Some(owner) => Ok(RepositoryView { owner, name }),
            None => match record.owner_login {
                Some(owner) => Ok(RepositoryView { owner, name }),
                None => Err(RepositoryError::MissingOwner),
            },
        },
    }
}

/// The view of the result of resolving a record.
pub open spec fn resolution_view(result: Result<Repository, RepositoryError>) -> Result<
    RepositoryView,
    RepositoryError,
> {
    match result {
        Ok(repository) => Ok(repository@),
        Err(e) => Err(e),
    }
}

/// Finds the repository that `record` stands for, with `org_name` as its
/// owner where one is configured.
pub fn resolve_repository(org_name: &Option<String>, record: &RepoRecord) -> (result: Result<
    Repository,
    RepositoryError,
>)
    ensures
        resolution_view(result) == resolved(text_view(*org_name), record@),
{
    let name = match &record.name {
        Some(name) => name.clone(),
        None => {
            return Err(RepositoryError::MissingName);
        },
    };
    match org_name {
        Some(owner) => Ok(Repository { owner: owner.clone(), name }),
        None => match &record.owner_login {
            Some(owner) => Ok(Repository { owner: owner.clone(), name }),
            None => Err(RepositoryError::MissingOwner),
        },
    }
}

/// The state after each of `responses` came back in turn.
pub open spec fn after_responses(state: EnumerationView, responses: Seq<RepoResponseView>) -> EnumerationView
    decreases responses.len(),
{
    if responses.len() == 0 {
        state
    } else {
        after_response(after_responses(state, responses.drop_last()), responses.last())
    }
}

/// A full page followed by an empty page: the enumeration collects exactly
/// the entries of the full page, after what it held before, and asks for no
/// further page.
pub proof fn lemma_full_page_then_empty_page(state: EnumerationView, full: Seq<RepoRecordView>)
    requires
        state.status is InProgress,
        !(state.scope is SingleRepo),
        state.page < u32::MAX,
        full.len() > 0,
    ensures
        ({
            let mid = after_response(state, RepoResponseView::Listing(full));
            let end = after_response(mid, RepoResponseView::Listing(Seq::empty()));
            &&& mid.status is InProgress
            &&& mid.page == state.page + 1
            &&& due_request(mid) is Some
            &&& end.status is Complete
            &&& end.repos == state.repos + full
            &&& end.page == state.page + 1
            &&& due_request(end) is None
        }),
{
}

/// The answers that hand over each of `pages` as a list, in order.
pub open spec fn listings(pages: Seq<Seq<RepoRecordView>>) -> Seq<RepoResponseView> {
    Seq::new(pages.len(), |i: int| RepoResponseView::Listing(pages[i]))
}

/// The entries of all of `pages`, in order.
pub open spec fn entries_of(pages: Seq<Seq<RepoRecordView>>) -> Seq<RepoRecordView>
    decreases pages.len(),
{
    if pages.len() == 0 {
        Seq::empty()
    } else {
        entries_of(pages.drop_last()) + pages.last()
    }
}

/// Any number of pages with entries, then an empty page: the enumeration
/// asks for one page after the other, collects the entries of all of them in
/// order, and is complete after the empty page.
pub proof fn lemma_pages_until_empty_page(state: EnumerationView, pages: Seq<Seq<RepoRecordView>>)
    requires
        state.status is InProgress,
        !(state.scope is SingleRepo),
        state.page + pages.len() <= u32::MAX,
        forall|i: int| 0 <= i < pages.len() ==> (#[trigger] pages[i]).len() > 0,
    ensures
        ({
            let mid = after_responses(state, listings(pages));
            let end = after_response(mid, RepoResponseView::Listing(Seq::empty()));
            &&& mid.status is InProgress
            &&& mid.scope == state.scope
            &&& mid.page == state.page + pages.len()
            &&& mid.repos == state.repos + entries_of(pages)
            &&& end.status is Complete
            &&& end.repos == state.repos + entries_of(pages)
            &&& due_request(end) is None
        }),
    decreases pages.len(),
{
    if pages.len() > 0 {
        let earlier = pages.drop_last();
        lemma_pages_until_empty_page(state, earlier);
        assert(listings(pages).drop_last() =~= listings(earlier));
        let before = after_responses(state, listings(earlier));
        let mid = after_responses(state, listings(pages));
        assert(mid == after_response(before, RepoResponseView::Listing(pages.last())));
        assert(mid.repos =~= state.repos + entries_of(pages));
    } else {
        assert(after_responses(state, listings(pages)).repos =~= state.repos + entries_of(pages));
    }
}

/// An enumeration that is finished asks for nothing more and keeps what it
/// holds, whatever is handed to it.
pub proof fn lemma_finished_enumeration_stays(state: EnumerationView, response: RepoResponseView)
    requires
        !(state.status is InProgress),
    ensures
        due_request(state) is None,
        after_response(state, response) == state,
{
}

/// An answer never takes away what was collected: the repositories held
/// before it are still there, in the same order, at the front.
pub proof fn lemma_collected_stays(state: EnumerationView, response: RepoResponseView)
    ensures
        state.repos.is_prefix_of(after_response(state, response).repos),
{
    let next = after_response(state, response);
    assert(state.repos.is_prefix_of(next.repos)) by {
        assert(next.repos.subrange(0, state.repos.len() as int) =~= state.repos);
    }
}

/// The repositories that a sequence of records stands for, in order; the
/// records that name none are left out.
pub open spec fn resolved_all(org_name: Option<Seq<char>>, records: Seq<RepoRecordView>) -> Seq<
    RepositoryView,
>
    decreases records.len(),
{
    if records.len() == 0 {
        Seq::empty()
    } else {
        let before = resolved_all(org_name, records.drop_last());
        match resolved(org_name, records.last()) {
            Ok(repository) => before.push(repository),
            Err(_) => before,
        }
    }
}

/// The records of a sequence that name no repository, each with its place
/// in the sequence and the reason, in order.
pub open spec fn refused_all(org_name: Option<Seq<char>>, records: Seq<RepoRecordView>) -> Seq<
    (int, RepositoryError),
>
    decreases records.len(),
{
    if records.len() == 0 {
        Seq::empty()
    } else {
        let before = refused_all(org_name, records.drop_last());
        match resolved(org_name, records.last()) {
            Ok(_) => before,
            Err(e) => before.push((records.len() - 1, e)),
        }
    }
}

/// The places and reasons in `skipped`, as mathematical values.
pub open spec fn skipped_views(skipped: Seq<(usize, RepositoryError)>) -> Seq<(int, RepositoryError)> {
    Seq::new(skipped.len(), |i: int| (skipped[i].0 as int, skipped[i].1))
}

/// The repositories to label among those that an enumeration collected, and
/// the records that had to be left out.
#[derive(Clone, Debug)]
pub struct Targets {
    /// The repositories that the records stand for, in the order of the
    /// records.
    pub repositories: Vec<Repository>,
    /// The place of each record that names no repository, with the reason.
    pub skipped: Vec<(usize, RepositoryError)>,
}

/// Resolves every record of a listing. A record that names no repository is
/// left out and reported; the others are not affected by it.
pub fn resolve_all(org_name: &Option<String>, records: &Vec<RepoRecord>) -> (targets: Targets)
    ensures
        repository_views(targets.repositories@) == resolved_all(
            text_view(*org_name),
            record_views(records@),
        ),
        skipped_views(targets.skipped@) == refused_all(
            text_view(*org_name),
            record_views(records@),
        ),
        targets.repositories.len() + targets.skipped.len() == records.len(),
{
    let mut repositories: Vec<Repository> = Vec::new();
    let mut skipped: Vec<(usize, RepositoryError)> = Vec::new();
    let ghost org = text_view(*org_name);
    let ghost all = record_views(records@);
    let mut i: usize = 0;
    proof {
        assert(all.subrange(0, 0) =~= Seq::empty());
    }
    while i < records.len()
        invariant
            i <= records.len(),
            org == text_view(*org_name),
            all == record_views(records@),
            repository_views(repositories@) == resolved_all(org, all.subrange(0, i as int)),
            skipped_views(skipped@) == refused_all(org, all.subrange(0, i as int)),
            repositories.len() + skipped.len() == i,
        decreases records.len() - i,
    {
        let ghost before = all.subrange(0, i as int);
        let ghost upto = all.subrange(0, i + 1);
        proof {
            assert(upto.drop_last() =~= before);
            assert(upto.last() == records[i as int]@);
        }
        match resolve_repository(org_name, &records[i]) {
            Ok(repository) => {
                let ghost view = repository@;
                let ghost old_views = repository_views(repositories@);
                repositories.push(repository);
                assert(repository_views(repositories@) =~= old_views.push(view));
            },
            Err(e) => {
                let ghost old_views = skipped_views(skipped@);
                skipped.push((i, e));
                assert(skipped_views(skipped@) =~= old_views.push((i as int, e)));
            },
        }
        i += 1;
    }
    proof {
        assert(all.subrange(0, records.len() as int) =~= all);
    }
    Targets { repositories, skipped }
}

} // verus!
