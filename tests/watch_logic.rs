use std::cell::Cell;

use markdown_viewer::error::MarkdownViewerError;
use markdown_viewer::paths::PathPlatform;
use markdown_viewer::watch::{
    affects_watched_file, establish_watch, file_names_equal_for_watch, native_event_concerns,
    paths_equal_for_watch, should_emit_reload, watch_target, ChangeKind, FileSignature,
    PollAction, PollEvent, PollTracker, WatchHandle, WatchSlot,
};

fn paths(items: &[&str]) -> Vec<String> {
    items.iter().map(|p| p.to_string()).collect()
}

#[test]
fn affects_watched_file_matches_exact_and_same_name_in_same_directory() {
    let watched = "/tmp/guide.md";
    assert!(affects_watched_file(&paths(&["/tmp/guide.md"]), watched, PathPlatform::Unix));
    assert!(affects_watched_file(&paths(&[watched]), watched, PathPlatform::Unix));
    assert!(!affects_watched_file(&paths(&["/tmp/other.md"]), watched, PathPlatform::Unix));
    assert!(!affects_watched_file(&paths(&["/var/guide.md"]), watched, PathPlatform::Unix));
}

#[test]
fn affects_watched_file_is_case_insensitive_on_windows() {
    let watched = r"C:\Docs\Guide.md";
    assert!(affects_watched_file(
        &paths(&[r"c:\docs\guide.md"]),
        watched,
        PathPlatform::Windows
    ));
}

#[test]
fn affects_watched_file_matches_non_ascii_name_on_windows() {
    let watched = r"C:\Docs\Café.md";
    assert!(affects_watched_file(
        &paths(&[r"c:\docs\CAFÉ.md"]),
        watched,
        PathPlatform::Windows
    ));
}

#[test]
fn affects_watched_file_is_case_sensitive_on_non_windows() {
    let watched = "/tmp/Guide.md";
    assert!(!affects_watched_file(&paths(&["/tmp/guide.md"]), watched, PathPlatform::Unix));
}

#[test]
fn affects_watched_file_edge_cases() {
    let watched = "/tmp/guide.md";
    assert!(!affects_watched_file(&Vec::new(), watched, PathPlatform::Unix));
    assert!(affects_watched_file(
        &paths(&["/tmp/other.md", "/tmp//guide.md"]),
        watched,
        PathPlatform::Unix
    ));
    assert!(affects_watched_file(&paths(&["/tmp/./guide.md"]), watched, PathPlatform::Unix));
    assert!(affects_watched_file(
        &paths(&[r"C:\DOCS\GUIDE.MD"]),
        r"c:\docs\guide.md",
        PathPlatform::Windows
    ));
    assert!(!affects_watched_file(
        &paths(&[r"c:\docs\other.md"]),
        r"C:\Docs\Guide.md",
        PathPlatform::Windows
    ));
}

#[test]
fn watch_equality_follows_platform_rules() {
    assert!(paths_equal_for_watch(PathPlatform::Windows, r"C:\A\B.md", r"c:\a\b.md"));
    assert!(!paths_equal_for_watch(PathPlatform::Unix, "/A/B.md", "/a/b.md"));
    assert!(file_names_equal_for_watch(PathPlatform::Windows, "ÉTÉ.md", "été.md"));
    assert!(!file_names_equal_for_watch(PathPlatform::Unix, "ÉTÉ.md", "été.md"));
    assert!(file_names_equal_for_watch(PathPlatform::Unix, "été.md", "été.md"));
}

#[test]
fn should_emit_reload_filters_event_kinds() {
    assert!(should_emit_reload(ChangeKind::Create));
    assert!(should_emit_reload(ChangeKind::Remove));
    assert!(should_emit_reload(ChangeKind::ModifyData));
    assert!(should_emit_reload(ChangeKind::ModifyName));
    assert!(!should_emit_reload(ChangeKind::Any));
    assert!(!should_emit_reload(ChangeKind::Access));
    assert!(!should_emit_reload(ChangeKind::ModifyMetadata));
    assert!(!should_emit_reload(ChangeKind::ModifyOther));
    assert!(!should_emit_reload(ChangeKind::Other));
}

#[test]
fn native_events_need_a_reload_kind_and_the_watched_file() {
    let watched = "/tmp/guide.md";
    assert!(native_event_concerns(
        ChangeKind::ModifyData,
        &paths(&["/tmp/guide.md"]),
        watched,
        PathPlatform::Unix
    ));
    assert!(!native_event_concerns(
        ChangeKind::Access,
        &paths(&["/tmp/guide.md"]),
        watched,
        PathPlatform::Unix
    ));
    assert!(!native_event_concerns(
        ChangeKind::Create,
        &paths(&["/tmp/other.md"]),
        watched,
        PathPlatform::Unix
    ));
}

#[test]
fn start_poll_fallback_if_needed_skips_polling_when_native_watcher_exists() {
    let polled = Cell::new(false);
    let session = establish_watch(
        "/tmp/unused.md".to_string(),
        "/tmp".to_string(),
        Some(7u32),
        || {
            polled.set(true);
            0u64
        },
    );
    assert!(matches!(session.handle, WatchHandle::Native(7)));
    assert!(!polled.get());
}

#[test]
fn start_poll_fallback_if_needed_starts_polling_when_native_watcher_missing() {
    let polled = Cell::new(false);
    let session = establish_watch(
        "/tmp/guide.md".to_string(),
        "/tmp".to_string(),
        None::<u32>,
        || {
            polled.set(true);
            42u64
        },
    );
    assert!(matches!(session.handle, WatchHandle::Polling(42)));
    assert!(polled.get());
    assert_eq!(session.watched_file, "/tmp/guide.md");
    assert_eq!(session.watched_dir, "/tmp");
}

fn signature(size: u64, modified_nanos: u128) -> Option<FileSignature> {
    Some(FileSignature {
        size,
        modified_nanos,
    })
}

#[test]
fn poll_reports_one_change_per_rewrite() {
    // The file holds "x", then is rewritten with "y" once.
    let mut tracker = PollTracker::new(signature(1, 1_000));
    let mut notifications = 0;
    for current in [signature(1, 1_000), signature(1, 2_000), signature(1, 2_000), signature(1, 2_000)] {
        if tracker.step(PollEvent::TimedOut(current)) == PollAction::Notify {
            notifications += 1;
        }
    }
    assert_eq!(notifications, 1);
    assert_eq!(tracker.last_seen, signature(1, 2_000));
}

#[test]
fn poll_counts_disappearance_and_reappearance() {
    let mut tracker = PollTracker::new(signature(5, 10));
    assert!(tracker.observe(None));
    assert!(!tracker.observe(None));
    assert!(tracker.observe(signature(5, 10)));
    assert!(tracker.observe(signature(6, 10)));
    assert!(!tracker.observe(signature(6, 10)));
}

#[test]
fn poll_stops_on_request_or_lost_owner() {
    let mut tracker = PollTracker::new(None);
    assert_eq!(tracker.step(PollEvent::StopRequested), PollAction::Exit);
    assert_eq!(tracker.step(PollEvent::Disconnected), PollAction::Exit);
    assert_eq!(tracker.step(PollEvent::TimedOut(None)), PollAction::Wait);
    assert_eq!(tracker.step(PollEvent::TimedOut(signature(1, 1))), PollAction::Notify);
}

#[test]
fn slot_holds_one_session_and_hands_back_the_rest() {
    let mut slot: WatchSlot<u32, u64> = WatchSlot::new();
    assert!(!slot.is_active());
    let first = establish_watch("/a/one.md".to_string(), "/a".to_string(), Some(1u32), || 0u64);
    assert!(slot.install(first).is_none());
    let second = establish_watch("/a/two.md".to_string(), "/a".to_string(), None, || 2u64);
    let displaced = slot.install(second).expect("the first session is handed back");
    assert_eq!(displaced.watched_file, "/a/one.md");
    assert!(slot.is_active());
    let stopped = slot.take().expect("stop hands back the active session");
    assert_eq!(stopped.watched_file, "/a/two.md");
    assert!(slot.take().is_none());
    assert!(slot.take().is_none());
    assert!(!slot.is_active());
}

#[test]
fn watch_target_is_file_and_parent() {
    let (file, dir) = watch_target(PathPlatform::Unix, Ok("/tmp/a.md".to_string()))
        .expect("a file in a directory can be watched");
    assert_eq!(file, "/tmp/a.md");
    assert_eq!(dir, "/tmp");
    match watch_target(PathPlatform::Unix, Ok("/".to_string())) {
        Err(MarkdownViewerError::Watch { path, reason }) => {
            assert_eq!(path, "/");
            assert_eq!(reason, "cannot watch a file without a parent directory");
        }
        other => panic!("unexpected result: {other:?}"),
    }
    match watch_target(
        PathPlatform::Unix,
        Err(MarkdownViewerError::FileNotFound("/missing.md".to_string())),
    ) {
        Err(MarkdownViewerError::FileNotFound(path)) => assert_eq!(path, "/missing.md"),
        other => panic!("unexpected result: {other:?}"),
    }
}
