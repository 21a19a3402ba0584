//! Options for walking a directory tree.
//!
//! The walk itself is filesystem work and lives with the caller; this
//! module only carries the choices a caller makes, each one optional.

use vstd::prelude::*;

verus! {

/// Options that can be applied to a directory walker.
#[derive(Clone, Copy, Debug, PartialEq, Eq, Hash)]
pub struct WalkDirOptions {
    /// Produces the entries in the directory before any sub-directories.
    pub contents_first: Option<bool>,
    /// Follow symbolic links.
    pub follow_links: Option<bool>,
    /// The maximum number of open file descriptors.
    pub max_open: Option<usize>,
    /// The minimum depth to descend into.
    pub min_depth: Option<usize>,
    /// The maximum depth to descend into.
    pub max_depth: Option<usize>,
    /// Only follow entries on the same file system.
    pub same_file_system: Option<bool>,
    /// Sort the entries by their file name for a stable order.
    pub sort_by_filename: Option<bool>,
}

impl Default for WalkDirOptions {
    /// By default no option is set: the walker's own defaults apply.
    fn default() -> (r: Self)
        ensures
            r == (WalkDirOptions {
                contents_first: None,
                follow_links: None,
                max_open: None,
                min_depth: None,
                max_depth: None,
                same_file_system: None,
                sort_by_filename: None,
            }),
    {
        WalkDirOptions {
            contents_first: None,
            follow_links: None,
            max_open: None,
            min_depth: None,
            max_depth: None,
            same_file_system: None,
            sort_by_filename: None,
        }
    }
}

impl WalkDirOptions {
    /// Sets the `sort_by_filename` option.
    pub fn with_sort_by_filename(self, sort_by_filename: bool) -> (r: Self)
        ensures
            r == (WalkDirOptions { sort_by_filename: Some(sort_by_filename), ..self }),
    {
        Self { sort_by_filename: Some(sort_by_filename), ..self }
    }

    /// Sets the `same_file_system` option.
    pub fn with_same_file_system(self, same_file_system: bool) -> (r: Self)
        ensures
            r == (WalkDirOptions { same_file_system: Some(same_file_system), ..self }),
    {
        Self { same_file_system: Some(same_file_system), ..self }
    }

    /// Sets the `max_depth` option.
    pub fn with_max_depth(self, max_depth: usize) -> (r: Self)
        ensures
            r == (WalkDirOptions { max_depth: Some(max_depth), ..self }),
    {
        Self { max_depth: Some(max_depth), ..self }
    }

    /// Sets the `min_depth` option.
    pub fn with_min_depth(self, min_depth: usize) -> (r: Self)
        ensures
            r == (WalkDirOptions { min_depth: Some(min_depth), ..self }),
    {
        Self { min_depth: Some(min_depth), ..self }
    }

    /// Sets the `max_open` option, which controls the maximum number of
    /// open file descriptors.
    pub fn with_max_open(self, max_open: usize) -> (r: Self)
        ensures
            r == (WalkDirOptions { max_open: Some(max_open), ..self }),
    {
        Self { max_open: Some(max_open), ..self }
    }

    /// Sets the `contents_first` option, which produces directory
    /// contents before sub-directories.
    pub fn with_contents_first(self, contents_first: bool) -> (r: Self)
        ensures
            r == (WalkDirOptions { contents_first: Some(contents_first), ..self }),
    {
        Self { contents_first: Some(contents_first), ..self }
    }

    /// Sets the `follow_links` option, which controls whether the walker
    /// follows symbolic links.
    pub fn with_follow_links(self, follow_links: bool) -> (r: Self)
        ensures
            r == (WalkDirOptions { follow_links: Some(follow_links), ..self }),
    {
        Self { follow_links: Some(follow_links), ..self }
    }
}

} // verus!
