//! Where the local store is opened.

use vstd::prelude::*;
use vstd::string::*;
use crate::locations::AppPaths;

verus! {

/// Says where the local store is to be opened.
#[derive(Debug, Clone, PartialEq, Eq)]
pub struct DatabaseBuilder {
    _path: String,
}

impl View for DatabaseBuilder {
    type V = Seq<char>;

    /// The path of the file that will be opened.
    closed spec fn view(&self) -> Seq<char> {
        self._path@
    }
}

impl DatabaseBuilder {
    /// A builder for the local store at its usual place.
    pub fn new(paths: &AppPaths) -> (builder: Self)
        ensures
            builder@ == paths@.data_path,
    {
        Self { _path: paths.data_path.clone() }
    }

    /// The same builder for a store at `path`.
    pub fn with_path(self, path: String) -> (builder: Self)
        ensures
            builder@ == path@,
    {
        Self { _path: path }
    }

    /// The path of the file that will be opened.
    pub fn path(&self) -> (path: &String)
        ensures
            path@ == self@,
    {
        &self._path
    }
}

} // verus!
