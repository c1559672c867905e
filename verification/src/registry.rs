//! The path registry: the single source of truth for which file is being
//! viewed. The consumer side replaces the path on a file switch; any side may
//! read a clone of the current value. The host wraps one registry in its
//! mutual-exclusion lock; the registry itself cannot fail.

use vstd::prelude::*;

verus! {

/// Holds the canonical path of the document currently in view.
pub struct PathRegistry {
    /// Model state: the current document path.
    pub current: String,
}

impl PathRegistry {
    /// The current path, as a sequence of characters.
    pub open spec fn spec_path(&self) -> Seq<char> {
        self.current@
    }

    /// A registry initialized with the startup path. The first `set` of the
    /// registry's life; later calls replace the value.
    pub fn new(path: String) -> (r: Self)
        ensures
            r.spec_path() == path@,
    {
        PathRegistry { current: path }
    }

    /// A clone of the current path. Never fails and never changes the
    /// registry.
    pub fn get_file_path(&self) -> (r: String)
        ensures
            r@ == self.spec_path(),
    {
        self.current.clone()
    }

    /// Atomically replace the current path. There is no removal: a path is
    /// only ever superseded by another.
    pub fn set_file_path(&mut self, path: String)
        ensures
            final(self).spec_path() == path@,
    {
        self.current = path;
    }
}

} // verus!
