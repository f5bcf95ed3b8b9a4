//! A project on disk: its root directory and the layout scaffolded under it
//! (a configuration file, an articles directory, an output directory and a
//! statics directory). Creating the directories and files is I/O and lives
//! outside the library.

use vstd::prelude::*;

verus! {

/// A site project, identified by its root directory.
pub struct Project {
    pub root: String,
}

impl Project {
    /// A project rooted at the given directory.
    pub fn new(root: String) -> (r: Self)
        ensures
            r.root@ == root@,
    {
        Project { root }
    }
}

} // verus!
