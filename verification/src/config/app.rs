//! Putting the package's description together.

use vstd::prelude::*;
use crate::config::model::{slice_view, Config};
use crate::tools::text::text_view;

verus! {

/// The package's description, made of what the package's metadata says, as
/// handed in by the caller. There is no way for this to fail.
pub fn get_config(
    version: Option<&str>,
    author: Option<&str>,
    homepage: Option<&str>,
    description: Option<&str>,
    repository: Option<&str>,
) -> (result: Result<Config, std::convert::Infallible>)
    ensures
        result matches Ok(config) && {
            &&& text_view(config.version) == slice_view(version)
            &&& text_view(config.author) == slice_view(author)
            &&& text_view(config.homepage) == slice_view(homepage)
            &&& text_view(config.description) == slice_view(description)
            &&& text_view(config.repository) == slice_view(repository)
        },
{
    let mut config = Config::new();
    config.update(version, author, homepage, description, repository);
    Ok(config)
}

} // verus!
