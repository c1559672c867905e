use mdview::control::resolve_path;
use mdview::control::window_title;
use mdview::control::Session;
use mdview::coordinator::poll_tick;
use mdview::coordinator::reload_document;
use mdview::coordinator::TransitionStore;
use mdview::coordinator::POLL_INTERVAL_MS;
use mdview::debounce::coalesced_firings;
use mdview::debounce::note_watch_outcome;
use mdview::debounce::QUIESCENCE_WINDOW_MS;
use mdview::render::RESTORE_SCRIPT_BLOCK;
use mdview::signal::ReloadSignal;

#[test]
fn take_is_false_without_a_prior_mark() {
    let mut signal = ReloadSignal::new();
    assert!(!signal.take_if_changed());
}

#[test]
fn take_resets_immediately_with_no_double_fire() {
    let mut signal = ReloadSignal::new();
    signal.mark_changed();
    assert!(signal.take_if_changed());
    assert!(!signal.take_if_changed());
}

#[test]
fn marking_is_idempotent_between_polls() {
    let mut signal = ReloadSignal::new();
    signal.mark_changed();
    signal.mark_changed();
    signal.mark_changed();
    assert!(signal.take_if_changed());
    assert!(!signal.take_if_changed());
}

#[test]
fn events_within_one_window_coalesce_to_one_firing() {
    let times: Vec<u64> = vec![0, 50, 120, 180];
    assert_eq!(coalesced_firings(&times, QUIESCENCE_WINDOW_MS), 1);
}

#[test]
fn gap_separated_bursts_fire_once_each() {
    let times: Vec<u64> = vec![0, 300, 350, 900];
    assert_eq!(coalesced_firings(&times, QUIESCENCE_WINDOW_MS), 3);
}

#[test]
fn a_gap_of_exactly_the_window_does_not_split_a_burst() {
    let times: Vec<u64> = vec![0, 200];
    assert_eq!(coalesced_firings(&times, 200), 1);
    let times: Vec<u64> = vec![0, 201];
    assert_eq!(coalesced_firings(&times, 200), 2);
}

#[test]
fn no_events_fire_nothing() {
    let times: Vec<u64> = vec![];
    assert_eq!(coalesced_firings(&times, QUIESCENCE_WINDOW_MS), 0);
}

#[test]
fn burst_of_events_is_observed_as_a_single_reload() {
    let mut signal = ReloadSignal::new();
    let times: Vec<u64> = vec![0, 50, 120, 180];
    let firings = coalesced_firings(&times, QUIESCENCE_WINDOW_MS);
    for _ in 0..firings {
        note_watch_outcome(&mut signal, true);
    }
    assert!(signal.take_if_changed());
    assert!(!signal.take_if_changed());
}

#[test]
fn monitor_error_sets_no_signal() {
    let mut signal = ReloadSignal::new();
    note_watch_outcome(&mut signal, false);
    assert!(!signal.take_if_changed());
}

#[test]
fn tick_reloads_only_when_pending_and_surface_ready() {
    let mut signal = ReloadSignal::new();
    assert!(!poll_tick(&mut signal, true));

    signal.mark_changed();
    assert!(poll_tick(&mut signal, true));
    assert!(!poll_tick(&mut signal, true));

    // A tick before the surface is up consumes the flag silently.
    signal.mark_changed();
    assert!(!poll_tick(&mut signal, false));
    assert!(!poll_tick(&mut signal, true));
}

#[test]
fn poll_interval_matches_quiescence_window() {
    assert_eq!(POLL_INTERVAL_MS, 200);
    assert_eq!(QUIESCENCE_WINDOW_MS, 200);
}

#[test]
fn scroll_offset_round_trips_and_is_cleared() {
    let mut store = TransitionStore::new();
    store.capture(412);
    assert_eq!(store.restore(), Some(412));
    // The store entry is gone: a later unrelated reload restores nothing.
    assert_eq!(store.restore(), None);
}

#[test]
fn later_capture_wins() {
    let mut store = TransitionStore::new();
    store.capture(10);
    store.capture(990);
    assert_eq!(store.restore(), Some(990));
}

#[test]
fn reload_document_carries_the_restoration_script() {
    let doc = reload_document("/tmp/notes.md", Ok(String::from("# Notes")));
    assert!(doc.contains("<h1>Notes</h1>"));
    assert!(doc.contains(RESTORE_SCRIPT_BLOCK));
}

#[test]
fn switch_rebinds_registry_and_watch_and_renders_at_once() {
    let mut session = Session::new(String::from("/docs/a.md"));
    session.start_watching();
    let doc = session.switch_to(String::from("/docs/b.md"), Ok(String::from("# B")));
    assert_eq!(session.registry.get_file_path(), "/docs/b.md");
    let handle = session.watch.as_ref().unwrap();
    assert_eq!(handle.watched, "/docs/b.md");
    // The title reflects the new path.
    assert_eq!(window_title(&session.registry.get_file_path()), "b.md");
    assert!(doc.contains("<h1>B</h1>"));
    // The immediate render is the plain document: no scroll is carried over.
    assert!(!doc.contains(RESTORE_SCRIPT_BLOCK));
}

#[test]
fn session_starts_unwatched_on_the_startup_path() {
    let mut session = Session::new(String::from("/docs/a.md"));
    assert_eq!(session.registry.get_file_path(), "/docs/a.md");
    assert!(session.watch.is_none());
    session.start_watching();
    assert_eq!(session.watch.as_ref().unwrap().watched, "/docs/a.md");
}

#[test]
fn registry_replaces_and_clones() {
    let mut session = Session::new(String::from("/one.md"));
    session.registry.set_file_path(String::from("/two.md"));
    let got = session.registry.get_file_path();
    assert_eq!(got, "/two.md");
    // The clone is independent: reading did not change the registry.
    assert_eq!(session.registry.get_file_path(), "/two.md");
}

#[test]
fn window_title_is_the_final_name_component() {
    assert_eq!(window_title("/docs/notes.md"), "notes.md");
    assert_eq!(window_title("notes.md"), "notes.md");
}

#[test]
fn window_title_falls_back_for_paths_without_a_name() {
    assert_eq!(window_title("/docs/"), "mdview");
    assert_eq!(window_title(""), "mdview");
    assert_eq!(window_title("/"), "mdview");
}

#[test]
fn canonicalization_failure_falls_back_to_the_literal_path() {
    let resolved = resolve_path(Some(String::from("/real/a.md")), String::from("a.md"));
    assert_eq!(resolved, "/real/a.md");
    let fallback = resolve_path(None, String::from("a.md"));
    assert_eq!(fallback, "a.md");
}
