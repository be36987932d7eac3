use vstd::prelude::*;

verus! {

/// The file-system asset source: the search paths assets are resolved
/// against. The I/O itself happens outside this crate.
#[derive(Debug)]
pub struct FileSystem {
    pub search_paths: Vec<String>,
}

impl FileSystem {
    pub fn new(search_paths: Vec<String>) -> (r: Self)
        ensures
            r.search_paths == search_paths,
    {
        Self { search_paths }
    }
}

} // verus!
