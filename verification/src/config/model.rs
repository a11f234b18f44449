//! The description of the package: version, author and where to find it.

use vstd::prelude::*;
use crate::tools::text::text_view;

verus! {

/// The description of the package. A field is `None` where nothing is known.
#[derive(Clone, Debug)]
pub struct Config {
    pub version: Option<String>,
    pub author: Option<String>,
    pub homepage: Option<String>,
    pub description: Option<String>,
    pub repository: Option<String>,
}

/// The text of an optional string slice, if there is one.
pub open spec fn slice_view(text: Option<&str>) -> Option<Seq<char>> {
    match text {
        Some(t) => Some(t@),
        None => None,
    }
}

/// The text of an optional string, or the empty text.
pub open spec fn text_or_empty(text: Option<String>) -> Seq<char> {
    match text {
        Some(t) => t@,
        None => Seq::empty(),
    }
}

/// An owned copy of an optional string slice.
fn owned(text: Option<&str>) -> (copy: Option<String>)
    ensures
        text_view(copy) == slice_view(text),
{
    match text {
        Some(t) => Some(String::from_str(t)),
        None => None,
    }
}

/// The text of an optional string, or the empty text.
fn or_empty(text: &Option<String>) -> (copy: String)
    ensures
        copy@ == text_or_empty(*text),
{
    match text {
        Some(t) => t.clone(),
        None => String::new(),
    }
}

impl Config {
    /// A description in which nothing is known yet.
    pub fn new() -> (config: Config)
        ensures
            config.version is None,
            config.author is None,
            config.homepage is None,
            config.description is None,
            config.repository is None,
    {
        Config { version: None, author: None, homepage: None, description: None, repository: None }
    }

    /// Replaces every field by what the package's metadata says, as handed
    /// in by the caller; a field that the metadata lacks becomes `None`.
    pub fn update(
        &mut self,
        version: Option<&str>,
        author: Option<&str>,
        homepage: Option<&str>,
        description: Option<&str>,
        repository: Option<&str>,
    )
        ensures
            text_view(final(self).version) == slice_view(version),
            text_view(final(self).author) == slice_view(author),
            text_view(final(self).homepage) == slice_view(homepage),
            text_view(final(self).description) == slice_view(description),
            text_view(final(self).repository) == slice_view(repository),
    {
        self.version = owned(version);
        self.author = owned(author);
        self.homepage = owned(homepage);
        self.description = owned(description);
        self.repository = owned(repository);
    }

    /// Version, author, homepage, description and repository, in this order,
    /// each as text; a field that is not known is the empty text.
    pub fn get_config(&self) -> (fields: (String, String, String, String, String))
        ensures
            fields.0@ == text_or_empty(self.version),
            fields.1@ == text_or_empty(self.author),
            fields.2@ == text_or_empty(self.homepage),
            fields.3@ == text_or_empty(self.description),
            fields.4@ == text_or_empty(self.repository),
    {
        (
            or_empty(&self.version),
            or_empty(&self.author),
            or_empty(&self.homepage),
            or_empty(&self.description),
            or_empty(&self.repository),
        )
    }
}

} // verus!
