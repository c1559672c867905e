//! The change watcher's debounce model. The watcher observes raw filesystem
//! events on a background thread and coalesces bursts into "changed"
//! notifications: a notification fires only after the quiescence window
//! closes with no further event, so any number of events inside one window
//! collapse into a single firing, and each gap-separated burst fires once.
//! Each firing sets the reload signal; a monitor error sets nothing and must
//! never stop the process.

use crate::signal::ReloadSignal;
use crate::signal::fresh_signal;
use crate::signal::marked;
use crate::signal::taken;
use vstd::prelude::*;

verus! {

/// The fixed quiescence window of the watcher, in milliseconds.
pub const QUIESCENCE_WINDOW_MS: u64 = 200;

/// How many debounced notifications a run of raw events produces: the first
/// event opens a burst, and a later event opens a new burst exactly when it
/// arrives more than `window` after its predecessor.
pub open spec fn burst_count(times: Seq<u64>, window: u64) -> nat
    decreases times.len(),
{
    if times.len() == 0 {
        0
    } else if times.len() == 1 {
        1
    } else {
        burst_count(times.drop_last(), window) + if times[times.len() - 1] - times[times.len()
            - 2] > window {
            1nat
        } else {
            0nat
        }
    }
}

/// Count the debounced notifications that a run of raw events, given by their
/// arrival times in order, produces under the given quiescence window.
pub fn coalesced_firings(times: &Vec<u64>, window: u64) -> (n: usize)
    ensures
        n as nat == burst_count(times@, window),
{
    let mut n: usize = 0;
    let mut i: usize = 0;
    while i < times.len()
        invariant
            i <= times.len(),
            n <= i,
            n as nat == burst_count(times@.subrange(0, i as int), window),
        decreases times.len() - i,
    {
        let ghost prefix = times@.subrange(0, i as int);
        let ghost next = times@.subrange(0, i as int + 1);
        proof {
            assert(next.drop_last() =~= prefix);
            assert(next[next.len() - 1] == times@[i as int]);
        }
        if i == 0 {
            n = n + 1;
        } else {
            let prev = times[i - 1];
            let t = times[i];
            proof {
                assert(next[next.len() - 2] == times@[i - 1]);
            }
            if t > prev && t - prev > window {
                n = n + 1;
            }
        }
        i = i + 1;
    }
    proof {
        assert(times@.subrange(0, times@.len() as int) =~= times@);
    }
    n
}

/// Events that all arrive within the quiescence window of their predecessor
/// form one burst: the debouncer fires exactly once for them.
pub proof fn lemma_burst_within_window_fires_once(times: Seq<u64>, window: u64)
    requires
        times.len() > 0,
        forall|i: int| 0 < i < times.len() ==> #[trigger] (times[i] - times[i - 1]) <= window,
    ensures
        burst_count(times, window) == 1,
    decreases times.len(),
{
    if times.len() > 1 {
        let head = times.drop_last();
        assert forall|i: int| 0 < i < head.len() implies #[trigger] (head[i] - head[i - 1])
            <= window by {
            assert(head[i] == times[i]);
            assert(head[i - 1] == times[i - 1]);
        }
        lemma_burst_within_window_fires_once(head, window);
    }
}

/// A gap wider than the quiescence window separates bursts: the events after
/// the gap fire on their own, in addition to the firings before it.
pub proof fn lemma_gap_separates_bursts(before: Seq<u64>, after: Seq<u64>, window: u64)
    requires
        before.len() > 0,
        after.len() > 0,
        after[0] - before.last() > window,
    ensures
        burst_count(before + after, window) == burst_count(before, window) + burst_count(
            after,
            window,
        ),
    decreases after.len(),
{
    let whole = before + after;
    if after.len() == 1 {
        assert(whole.drop_last() =~= before);
        assert(whole[whole.len() - 1] == after[0]);
        assert(whole[whole.len() - 2] == before.last());
    } else {
        lemma_gap_separates_bursts(before, after.drop_last(), window);
        assert(whole.drop_last() =~= before + after.drop_last());
        assert(whole[whole.len() - 1] == after[after.len() - 1]);
        assert(whole[whole.len() - 2] == after[after.len() - 2]);
    }
}

/// The signal after a number of debounced firings, each of which marks it.
pub open spec fn signal_after_firings(s: ReloadSignal, firings: nat) -> ReloadSignal
    decreases firings,
{
    if firings == 0 {
        s
    } else {
        marked(signal_after_firings(s, (firings - 1) as nat))
    }
}

/// Any positive number of firings leaves the signal pending.
pub proof fn lemma_firings_mark_signal(s: ReloadSignal, firings: nat)
    requires
        firings > 0,
    ensures
        signal_after_firings(s, firings).spec_pending(),
    decreases firings,
{
    if firings > 1 {
        lemma_firings_mark_signal(s, (firings - 1) as nat);
    }
}

/// Coalescing, end to end: raw events that all fall inside one quiescence
/// window produce exactly one firing, the poll that follows the burst
/// observes exactly one pending reload, and the next poll observes none.
pub proof fn lemma_burst_observed_once(times: Seq<u64>, window: u64)
    requires
        times.len() > 0,
        forall|i: int| 0 < i < times.len() ==> #[trigger] (times[i] - times[i - 1]) <= window,
    ensures
        burst_count(times, window) == 1,
        taken(signal_after_firings(fresh_signal(), burst_count(times, window))).0,
        !taken(taken(signal_after_firings(fresh_signal(), burst_count(times, window))).1).0,
{
    lemma_burst_within_window_fires_once(times, window);
    lemma_firings_mark_signal(fresh_signal(), 1);
}

/// Hand one watch outcome to the reload signal, as the watcher's callback
/// does: a coalesced "changed" notification marks the signal (idempotently);
/// a monitor error marks nothing — the host merely logs it, and neither
/// outcome can fail or block.
pub fn note_watch_outcome(signal: &mut ReloadSignal, changed: bool)
    ensures
        final(signal).spec_pending() == (old(signal).spec_pending() || changed),
        changed ==> *final(signal) == marked(*old(signal)),
        !changed ==> *final(signal) == *old(signal),
{
    if changed {
        signal.mark_changed();
    }
}

} // verus!
