//! The requests that the library asks its caller to send: which endpoint,
//! with which method, carrying which label.
//!
//! The caller adds the credential and the client-identifying header, sends
//! the request, and reports back what came of it.

use vstd::prelude::*;
use crate::labels::{WeekLabel, WeekLabelView};
use crate::tools::text::{decimal, push_decimal};

verus! {

/// Number of repositories asked for per page of a listing.
pub const PAGE_SIZE: u32 = 100;

/// How a request is sent.
#[derive(Clone, Copy, Debug, PartialEq, Eq, Structural)]
pub enum Method {
    Get,
    Post,
    Patch,
}

/// The fields of a label as the remote store takes them.
#[derive(Clone, Debug)]
pub struct LabelBody {
    pub name: String,
    pub color: String,
    pub description: String,
}

/// What a `LabelBody` holds, as mathematical values.
pub ghost struct LabelBodyView {
    pub name: Seq<char>,
    pub color: Seq<char>,
    pub description: Seq<char>,
}

impl View for LabelBody {
    type V = LabelBodyView;

    open spec fn view(&self) -> LabelBodyView {
        LabelBodyView { name: self.name@, color: self.color@, description: self.description@ }
    }
}

/// A request for the caller to send.
#[derive(Clone, Debug)]
pub struct Request {
    pub method: Method,
    pub url: String,
    pub body: Option<LabelBody>,
}

/// What a `Request` holds, as mathematical values.
pub ghost struct RequestView {
    pub method: Method,
    pub url: Seq<char>,
    pub body: Option<LabelBodyView>,
}

impl View for Request {
    type V = RequestView;

    open spec fn view(&self) -> RequestView {
        RequestView {
            method: self.method,
            url: self.url@,
            body: match self.body {
                Some(body) => Some(body@),
                None => None,
            },
        }
    }
}

/// The body that carries a label: its name, colour and description.
pub open spec fn body_of(label: WeekLabelView) -> LabelBodyView {
    LabelBodyView { name: label.name, color: label.color, description: label.description }
}

/// Address of the remote platform's interface.
pub open spec fn api_root() -> Seq<char> {
    "https://api.github.com"@
}

/// Address of one repository, given as `owner/name`.
pub open spec fn repo_url(full_name: Seq<char>) -> Seq<char> {
    api_root() + "/repos/"@ + full_name
}

/// The query that asks for page `page` of a listing.
pub open spec fn page_query(page: nat) -> Seq<char> {
    "?per_page="@ + decimal(PAGE_SIZE as nat) + "&page="@ + decimal(page)
}

/// Address of page `page` of the repositories of an organization.
pub open spec fn org_repos_url(org: Seq<char>, page: nat) -> Seq<char> {
    api_root() + "/orgs/"@ + org + "/repos"@ + page_query(page)
}

/// Address of page `page` of the repositories of the authenticated user.
pub open spec fn user_repos_url(page: nat) -> Seq<char> {
    api_root() + "/user/repos"@ + page_query(page)
}

/// Address of the labels of a repository.
pub open spec fn labels_url(owner: Seq<char>, repo: Seq<char>) -> Seq<char> {
    api_root() + "/repos/"@ + owner + "/"@ + repo + "/labels"@
}

/// Address of one label of a repository.
pub open spec fn label_url(owner: Seq<char>, repo: Seq<char>, label: Seq<char>) -> Seq<char> {
    labels_url(owner, repo) + "/"@ + label
}

/// The request that looks up one repository.
pub open spec fn lookup_request(full_name: Seq<char>) -> RequestView {
    RequestView { method: Method::Get, url: repo_url(full_name), body: None }
}

/// The request for page `page` of an organization's repositories.
pub open spec fn org_page_request(org: Seq<char>, page: nat) -> RequestView {
    RequestView { method: Method::Get, url: org_repos_url(org, page), body: None }
}

/// The request for page `page` of the authenticated user's repositories.
pub open spec fn user_page_request(page: nat) -> RequestView {
    RequestView { method: Method::Get, url: user_repos_url(page), body: None }
}

/// The request that creates a label in a repository.
pub open spec fn create_request(owner: Seq<char>, repo: Seq<char>, label: WeekLabelView) -> RequestView {
    RequestView { method: Method::Post, url: labels_url(owner, repo), body: Some(body_of(label)) }
}

/// The request that updates a label of a repository; it carries the same
/// body as the request that creates it.
pub open spec fn update_request(owner: Seq<char>, repo: Seq<char>, label: WeekLabelView) -> RequestView {
    RequestView {
        method: Method::Patch,
        url: label_url(owner, repo, label.name),
        body: Some(body_of(label)),
    }
}

impl LabelBody {
    /// The body that carries `label`.
    pub fn of_label(label: &WeekLabel) -> (body: LabelBody)
        ensures
            body@ == body_of(label@),
    {
        LabelBody {
            name: label.name.clone(),
            color: label.color.clone(),
            description: label.description.clone(),
        }
    }
}

/// The query that asks for page `page` of a listing.
fn page_query_text(page: u32) -> (query: String)
    ensures
        query@ == page_query(page as nat),
{
    let mut query = String::from_str("?per_page=");
    push_decimal(&mut query, PAGE_SIZE as u64);
    query.append("&page=");
    push_decimal(&mut query, page as u64);
    query
}

/// The address of the labels of the repository `repo` of `owner`.
fn labels_url_text(owner: &str, repo: &str) -> (url: String)
    ensures
        url@ == labels_url(owner@, repo@),
{
    let mut url = String::from_str("https://api.github.com");
    url.append("/repos/");
    url.append(owner);
    url.append("/");
    url.append(repo);
    url.append("/labels");
    url
}

impl Request {
    /// The request that looks up the repository `full_name`, given as
    /// `owner/name`.
    pub fn lookup(full_name: &str) -> (request: Request)
        ensures
            request@ == lookup_request(full_name@),
    {
        let mut url = String::from_str("https://api.github.com");
        url.append("/repos/");
        url.append(full_name);
        Request { method: Method::Get, url, body: None }
    }

    /// The request for page `page` of the repositories of `org`.
    pub fn org_page(org: &str, page: u32) -> (request: Request)
        ensures
            request@ == org_page_request(org@, page as nat),
    {
        let mut url = String::from_str("https://api.github.com");
        url.append("/orgs/");
        url.append(org);
        url.append("/repos");
        url.append(page_query_text(page).as_str());
        Request { method: Method::Get, url, body: None }
    }

    /// The request for page `page` of the repositories of the authenticated
    /// user.
    pub fn user_page(page: u32) -> (request: Request)
        ensures
            request@ == user_page_request(page as nat),
    {
        let mut url = String::from_str("https://api.github.com");
        url.append("/user/repos");
        url.append(page_query_text(page).as_str());
        Request { method: Method::Get, url, body: None }
    }

    /// The request that creates `label` in the repository `repo` of `owner`.
    pub fn create(owner: &str, repo: &str, label: &WeekLabel) -> (request: Request)
        ensures
            request@ == create_request(owner@, repo@, label@),
    {
        Request {
            method: Method::Post,
            url: labels_url_text(owner, repo),
            body: Some(LabelBody::of_label(label)),
        }
    }

    /// The request that updates `label` in the repository `repo` of `owner`.
    /// It carries the body of the request that creates the label.
    pub fn update(owner: &str, repo: &str, label: &WeekLabel) -> (request: Request)
        ensures
            request@ == update_request(owner@, repo@, label@),
            request@.body == create_request(owner@, repo@, label@).body,
    {
        let mut url = labels_url_text(owner, repo);
        url.append("/");
        url.append(label.name.as_str());
        Request { method: Method::Patch, url, body: Some(LabelBody::of_label(label)) }
    }
}

} // verus!
