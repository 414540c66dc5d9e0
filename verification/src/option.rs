//! The options that select what is loaded.

use crate::filter::{entry_views, parse_match_option, parsed_match_option, MatchOption};
use vstd::prelude::*;

verus! {

/// The filters, the tag, the directory and the file given on the command
/// line.
#[derive(Debug)]
pub struct Options<'a> {
    pub globs: Vec<MatchOption<'a>>,
    pub filters: Vec<MatchOption<'a>>,
    pub as_: Option<&'a str>,
    pub path: Option<&'a str>,
    pub file: Option<&'a str>,
}

/// An optional text as a plain value.
pub open spec fn text_view(text: Option<&str>) -> Option<Seq<char>> {
    match text {
        Some(t) => Some(t@),
        None => None,
    }
}

impl<'a> Default for Options<'a> {
    fn default() -> (r: Self)
        ensures
            r.globs@.len() == 0,
            r.filters@.len() == 0,
            r.as_ is None,
            r.path is None,
            r.file is None,
    {
        Self { globs: Vec::new(), filters: Vec::new(), as_: None, path: None, file: None }
    }
}

impl<'a> Options<'a> {
    /// The options for the texts given: `glob` and `filter` are
    /// comma-separated lists of `term` and `section:term`.
    pub fn new(
        glob: Option<&'a str>,
        filter: Option<&'a str>,
        as_: Option<&'a str>,
        path: Option<&'a str>,
        file: Option<&'a str>,
    ) -> (r: Self)
        ensures
            entry_views(r.globs@) == parsed_match_option(text_view(glob)),
            entry_views(r.filters@) == parsed_match_option(text_view(filter)),
            r.as_ == as_,
            r.path == path,
            r.file == file,
    {
        let globs = parse_match_option(glob);
        let filters = parse_match_option(filter);
        Self { as_, path, globs, filters, file }
    }
}

} // verus!
