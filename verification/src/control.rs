//! File-switch control: reconfigures the path registry, replaces the live
//! watch subscription, and produces the immediate render of the newly opened
//! file. At most one watch handle is live at a time; switching files discards
//! the old handle before a new one, bound to the new path, takes its place.
//! Also derives the window title shown for a path.

use crate::registry::PathRegistry;
use crate::render::document_of;
use crate::render::gfm_html_of;
use crate::render::render_document;
use crate::render::source_of;
use vstd::prelude::*;

verus! {

/// The title shown when a path has no final name component.
pub const DEFAULT_TITLE: &'static str = "mdview";

/// An active background subscription, bound to exactly one path for its whole
/// life. It models the handle whose drop releases the underlying watch.
pub struct WatchHandle {
    /// Model state: the path this subscription is bound to.
    pub watched: String,
}

impl WatchHandle {
    /// The path this handle watches.
    pub open spec fn spec_path(&self) -> Seq<char> {
        self.watched@
    }
}

/// The viewing session: the path registry together with the at-most-one live
/// watch handle. Replacing the handle models tearing the old subscription
/// down before the new one starts.
pub struct Session {
    /// The single source of truth for the path in view.
    pub registry: PathRegistry,
    /// The live watch subscription, if one is running.
    pub watch: Option<WatchHandle>,
}

impl Session {
    /// The path currently in view.
    pub open spec fn spec_path(&self) -> Seq<char> {
        self.registry.spec_path()
    }

    /// The path the live subscription is bound to, if one is running.
    pub open spec fn spec_watched(&self) -> Option<Seq<char>> {
        match self.watch {
            Some(h) => Some(h.spec_path()),
            None => None,
        }
    }

    /// A live watch, if any, is bound to the path in view: no subscription to
    /// a superseded path outlives a switch.
    pub open spec fn wf(&self) -> bool {
        match self.spec_watched() {
            Some(p) => p == self.spec_path(),
            None => true,
        }
    }

    /// A session on the startup path, not yet watching.
    pub fn new(path: String) -> (s: Self)
        ensures
            s.spec_path() == path@,
            s.spec_watched() is None,
            s.wf(),
    {
        Session { registry: PathRegistry::new(path), watch: None }
    }

    /// Subscribe to the path currently in view, replacing whatever handle was
    /// live before.
    pub fn start_watching(&mut self)
        ensures
            final(self).spec_path() == old(self).spec_path(),
            final(self).spec_watched() == Some(old(self).spec_path()),
            final(self).wf(),
    {
        let path = self.registry.get_file_path();
        self.watch = Some(WatchHandle { watched: path });
    }

    /// Switch the session to a new (already canonicalized) path: replace the
    /// registry value, tear the old subscription down in favour of one bound
    /// to the new path, and render the new file at once — the reload signal
    /// is bypassed so the file appears without waiting for a tick, and no
    /// scroll offset is carried over. `read` is the outcome of reading the
    /// new path.
    pub fn switch_to(&mut self, new_path: String, read: Result<String, String>) -> (doc: String)
        ensures
            final(self).spec_path() == new_path@,
            final(self).spec_watched() == Some(new_path@),
            final(self).wf(),
            doc@ == document_of(gfm_html_of(source_of(new_path@, read))),
    {
        self.registry.set_file_path(new_path);
        let watched = self.registry.get_file_path();
        self.watch = Some(WatchHandle { watched });
        let path = self.registry.get_file_path();
        render_document(path.as_str(), read)
    }
}

/// A switch both retargets the registry and replaces the subscription: after
/// it, no live handle is bound to the superseded path (unless the two paths
/// are the same), so watching the old path can produce no further signal.
pub proof fn lemma_switch_tears_down_old_watch(s: Session, old_path: Seq<char>, new_path: Seq<char>)
    requires
        s.spec_watched() == Some(new_path),
        old_path != new_path,
    ensures
        s.spec_watched() != Some(old_path),
{
}

/// The path a switch resolves to: the canonicalized form when
/// canonicalization succeeded, the literal path unchanged when it failed —
/// a canonicalization failure never turns into an error.
pub open spec fn resolved_path_of(canonical: Option<String>, literal: String) -> Seq<char> {
    match canonical {
        Some(c) => c@,
        None => literal@,
    }
}

/// Choose the path to open from a canonicalization outcome: the resolved
/// form if there is one, else the literal path as given.
pub fn resolve_path(canonical: Option<String>, literal: String) -> (p: String)
    ensures
        p@ == resolved_path_of(canonical, literal),
{
    match canonical {
        Some(c) => c,
        None => literal,
    }
}

/// The final name component of a path: what follows the last separator, or
/// the whole path when it has none.
pub open spec fn file_name_of(path: Seq<char>) -> Seq<char>
    decreases path.len(),
{
    if path.len() == 0 {
        path
    } else if path.last() == '/' {
        Seq::empty()
    } else {
        file_name_of(path.drop_last()).push(path.last())
    }
}

/// The window title for a path: its final name component, or the default
/// title when there is none.
pub open spec fn title_of(path: Seq<char>) -> Seq<char> {
    if file_name_of(path).len() == 0 {
        DEFAULT_TITLE@
    } else {
        file_name_of(path)
    }
}

/// The final name component is the suffix that starts right after the last
/// separator.
proof fn lemma_file_name_suffix(path: Seq<char>, k: int)
    requires
        0 <= k <= path.len(),
        forall|j: int| k <= j < path.len() ==> path[j] != '/',
        k > 0 ==> path[k - 1] == '/',
    ensures
        file_name_of(path) == path.subrange(k, path.len() as int),
    decreases path.len(),
{
    if k == path.len() {
        assert(path.subrange(k, path.len() as int) =~= Seq::empty());
    } else {
        let head = path.drop_last();
        assert(path.last() != '/');
        lemma_file_name_suffix(head, k);
        assert(file_name_of(path) =~= head.subrange(k, head.len() as int).push(path.last()));
        assert(head.subrange(k, head.len() as int).push(path.last()) =~= path.subrange(
            k,
            path.len() as int,
        ));
    }
}

/// The window title for a path: the final name component, or the default
/// title for a path without one.
pub fn window_title(path: &str) -> (title: String)
    ensures
        title@ == title_of(path@),
{
    let len = path.unicode_len();
    let mut i: usize = len;
    while i > 0 && path.get_char(i - 1) != '/'
        invariant
            i <= len,
            len == path@.len(),
            forall|j: int| i <= j < len ==> path@[j] != '/',
        decreases i,
    {
        i = i - 1;
    }
    proof {
        lemma_file_name_suffix(path@, i as int);
    }
    if i == len {
        String::from_str(DEFAULT_TITLE)
    } else {
        let name = path.substring_char(i, len);
        String::from_str(name)
    }
}

} // verus!
