//! Week labels for source-control repositories: the rolling window of ISO
//! week labels with its colour gradient, the enumeration of the repositories
//! to label, and the create-or-update protocol that applies each label to
//! each repository.

pub mod bulk;
pub mod config;
pub mod labels;
pub mod repos;
pub mod request;
pub mod sync;
pub mod tools;
