//! The configuration of a run: the credential, and which repositories to
//! label.

use vstd::prelude::*;
use crate::repos::{scope_of, SyncScope};
use crate::tools::text::text_view;

verus! {

/// What a run is configured with.
#[derive(Clone, Debug)]
pub struct ConfigFile {
    /// The credential that every request carries.
    pub github_token: String,
    /// The organization whose repositories are labelled, if any.
    pub org_name: Option<String>,
    /// The one repository that is labelled, as `owner/name`, if any.
    pub repo: Option<String>,
}

/// Why a configuration cannot be used.
#[derive(Clone, Copy, Debug, PartialEq, Eq, Structural)]
pub enum ConfigError {
    /// The configuration holds no credential.
    MissingToken,
}

impl ConfigFile {
    /// The configuration with the given entries. The credential is
    /// required; the organization and the repository are not.
    pub fn new(github_token: Option<String>, org_name: Option<String>, repo: Option<String>) -> (result:
        Result<ConfigFile, ConfigError>)
        ensures
            github_token is None <==> result == Err::<ConfigFile, ConfigError>(
                ConfigError::MissingToken,
            ),
            github_token matches Some(token) ==> result == Ok::<ConfigFile, ConfigError>(
                ConfigFile { github_token: token, org_name, repo },
            ),
    {
        match github_token {
            Some(token) => Ok(ConfigFile { github_token: token, org_name, repo }),
            None => Err(ConfigError::MissingToken),
        }
    }

    /// The scope that this configuration selects: its repository if it
    /// names one, else its organization if it names one, else the
    /// repositories of the authenticated user.
    pub fn scope(&self) -> (scope: SyncScope)
        ensures
            scope@ == scope_of(text_view(self.repo), text_view(self.org_name)),
    {
        match &self.repo {
            Some(name) => SyncScope::SingleRepo(name.clone()),
            None => match &self.org_name {
                Some(name) => SyncScope::Organization(name.clone()),
                None => SyncScope::AuthenticatedUser,
            },
        }
    }
}

} // verus!
