//! The reload coordinator: driven by a fixed-interval tick on the single
//! consumer context. Each tick takes the reload signal; when a reload is due
//! it captures the scroll offset into a transition store that survives the
//! document replacement, renders the file afresh with the restoration script
//! injected before the closing body boundary, and hands the document to the
//! display surface. The capture runs before the old document is discarded;
//! the restoration script runs only after the new one has loaded.

use crate::render::document_with_restore_of;
use crate::render::gfm_html_of;
use crate::render::render_markdown_with_restore;
use crate::render::source_of;
use crate::render::source_or_error;
use crate::signal::ReloadSignal;
use vstd::prelude::*;

verus! {

/// The fixed interval of the coordinator's poll tick, in milliseconds.
pub const POLL_INTERVAL_MS: u64 = 200;

/// Decide one poll tick. The pending flag is always consumed; work is due
/// only when a reload had been pending and the display surface is already
/// initialized. When the surface is not yet up the tick is a silent no-op:
/// the signal is re-set by further events if the change is still relevant,
/// and the initial render is performed by the startup path instead.
pub fn poll_tick(signal: &mut ReloadSignal, surface_ready: bool) -> (reload: bool)
    ensures
        !final(signal).spec_pending(),
        reload == (old(signal).spec_pending() && surface_ready),
{
    let pending = signal.take_if_changed();
    pending && surface_ready
}

/// Render the outcome of re-reading `path` into the document loaded on a
/// scroll-preserving reload: the full fresh render, with the restoration
/// script injected before the closing body boundary.
pub fn reload_document(path: &str, read: Result<String, String>) -> (doc: String)
    ensures
        doc@ == document_with_restore_of(gfm_html_of(source_of(path@, read))),
{
    let text = source_or_error(path, read);
    render_markdown_with_restore(text.as_str())
}

/// Model of the transition store: the origin-scoped, load-surviving slot
/// (one well-known key) that carries the scroll offset across a full
/// document replacement.
pub struct TransitionStore {
    /// Model state: the offset stored under the well-known key, if any.
    pub slot: Option<u64>,
}

/// What the capture script does to the store: it saves the current offset.
pub open spec fn captured(store: TransitionStore, offset: u64) -> TransitionStore {
    TransitionStore { slot: Some(offset) }
}

/// What the restoration script does: it reads the saved offset, if any, and
/// clears the slot in the same step.
pub open spec fn restored(store: TransitionStore) -> (Option<u64>, TransitionStore) {
    (store.slot, TransitionStore { slot: None })
}

impl TransitionStore {
    /// A store with nothing saved.
    pub fn new() -> (s: Self)
        ensures
            s.slot is None,
    {
        TransitionStore { slot: None }
    }

    /// Save the scroll offset captured right before a reload. This is the
    /// effect of the capture script on the store.
    pub fn capture(&mut self, offset: u64)
        ensures
            *final(self) == captured(*old(self), offset),
    {
        self.slot = Some(offset);
    }

    /// Read and clear the saved offset once the new document has loaded.
    /// This is the effect of the restoration script on the store.
    pub fn restore(&mut self) -> (offset: Option<u64>)
        ensures
            (offset, *final(self)) == restored(*old(self)),
    {
        let offset = self.slot;
        self.slot = None;
        offset
    }
}

/// The scroll round trip: an offset captured before a reload is exactly what
/// the next load's restoration yields, the store is empty afterwards, and a
/// later unrelated restoration finds nothing to reapply.
pub proof fn lemma_scroll_round_trip(store: TransitionStore, offset: u64)
    ensures
        restored(captured(store, offset)).0 == Some(offset),
        restored(captured(store, offset)).1.slot is None,
        restored(restored(captured(store, offset)).1).0 is None,
{
}

} // verus!
