use screenshot_native::native_overlay_session::{
    active_cpu_native_overlay_hwnd, begin_cpu_native_overlay_session,
    cancel_cpu_native_overlay_session, cancel_cpu_native_overlay_session_if_matches,
    cleanup_stale_cpu_native_overlay_session, cpu_native_overlay_session_diagnostics,
    raise_cpu_native_overlay_session, NativeOverlaySessionError, NativeOverlaySessionStore,
    NativeOverlayThreadStarted,
};
use screenshot_native::capture::MonitorCaptureBounds;
use screenshot_native::native_overlay_session::{
    rect_to_overlay_candidate, NativeOverlaySessionDiagnostics, NativeOverlaySessionRuntime,
    NativeOverlaySessionState, Win32OverlaySelectionRect, Win32Rect,
};

#[test]
fn empty_diagnostics_are_stable() {
    let diagnostics = NativeOverlaySessionDiagnostics::empty();
    assert!(!diagnostics.active);
    assert_eq!(diagnostics.state, NativeOverlaySessionState::Empty);
}

#[test]
fn runtime_and_state_labels_are_stable() {
    assert_eq!(
        NativeOverlaySessionRuntime::CpuRgbaWin32.as_str(),
        "cpu-rgba-win32"
    );
    assert_eq!(NativeOverlaySessionState::Visible.as_str(), "visible");
}

#[test]
fn rect_to_overlay_candidate_clips_to_capture_bounds() {
    let rect = Win32Rect {
        left: -10,
        top: 10,
        right: 120,
        bottom: 140,
    };
    let bounds = MonitorCaptureBounds::new(0, 0, 100, 100);

    assert_eq!(
        rect_to_overlay_candidate(rect, bounds, 12),
        Some(Win32OverlaySelectionRect {
            left: 0,
            top: 10,
            right: 100,
            bottom: 100,
        })
    );
}

#[test]
fn rect_to_overlay_candidate_rejects_tiny_rects() {
    let rect = Win32Rect {
        left: 10,
        top: 10,
        right: 16,
        bottom: 16,
    };
    let bounds = MonitorCaptureBounds::new(0, 0, 100, 100);

    assert_eq!(rect_to_overlay_candidate(rect, bounds, 12), None);
}


fn started_store() -> NativeOverlaySessionStore {
    let mut store = NativeOverlaySessionStore::new();
    let diagnostics = begin_cpu_native_overlay_session(
        &mut store,
        "ss-1".to_string(),
        2,
        MonitorCaptureBounds::new(0, 0, 100, 50),
        Ok(NativeOverlayThreadStarted { hwnd: 77, render_receipt: None }),
    )
    .expect("session started");
    assert!(diagnostics.active);
    assert!(diagnostics.visible);
    store
}

#[test]
fn begin_refuses_empty_bounds_and_keeps_store_empty() {
    let mut store = NativeOverlaySessionStore::new();
    let error = begin_cpu_native_overlay_session(
        &mut store,
        "ss-1".to_string(),
        1,
        MonitorCaptureBounds::new(0, 0, 0, 10),
        Ok(NativeOverlayThreadStarted { hwnd: 1, render_receipt: None }),
    )
    .expect_err("empty bounds refused");
    assert_eq!(error, NativeOverlaySessionError::InvalidBounds);
    assert!(store.session.is_none());
    let error = begin_cpu_native_overlay_session(
        &mut store,
        "ss-1".to_string(),
        1,
        MonitorCaptureBounds::new(0, 0, 10, 10),
        Err("no window".to_string()),
    )
    .expect_err("thread failure reported");
    assert_eq!(error, NativeOverlaySessionError::OverlayCreate("no window".to_string()));
    assert!(store.session.is_none());
}

#[test]
fn started_session_reports_its_window() {
    let store = started_store();
    let diagnostics = cpu_native_overlay_session_diagnostics(&store);
    assert_eq!(diagnostics.session_id.as_deref(), Some("ss-1"));
    assert_eq!(diagnostics.generation, Some(2));
    assert_eq!(diagnostics.hwnd, Some(77));
    assert_eq!(diagnostics.state, NativeOverlaySessionState::Visible);
    assert_eq!(active_cpu_native_overlay_hwnd(&store, Some("ss-1")), Some(77));
    assert_eq!(active_cpu_native_overlay_hwnd(&store, Some("ss-9")), None);
}

#[test]
fn raise_failure_marks_session_failed() {
    let mut store = started_store();
    let other = raise_cpu_native_overlay_session(&mut store, "ss-9", Ok(()));
    assert!(!other.active);
    let diagnostics =
        raise_cpu_native_overlay_session(&mut store, "ss-1", Err("raise failed".to_string()));
    assert_eq!(diagnostics.state, NativeOverlaySessionState::Failed);
    assert_eq!(diagnostics.fallback_reason.as_deref(), Some("raise failed"));
    assert_eq!(active_cpu_native_overlay_hwnd(&store, None), None);
}

#[test]
fn cancel_takes_matching_session_out_of_store() {
    let mut store = started_store();
    assert!(cancel_cpu_native_overlay_session_if_matches(&mut store, Some("ss-9")).is_none());
    assert!(store.session.is_some());
    let session = cancel_cpu_native_overlay_session_if_matches(&mut store, Some("ss-1"))
        .expect("matching session");
    assert!(store.session.is_none());
    let diagnostics = cancel_cpu_native_overlay_session(session, "user cancelled".to_string(), Ok(()));
    assert!(!diagnostics.active);
    assert_eq!(diagnostics.state, NativeOverlaySessionState::Cancelled);
    assert_eq!(diagnostics.fallback_reason.as_deref(), Some("user cancelled"));
    assert!(!cpu_native_overlay_session_diagnostics(&store).active);
}

#[test]
fn stale_cleanup_only_takes_other_generations() {
    let mut store = started_store();
    assert!(cleanup_stale_cpu_native_overlay_session(&mut store, 2).is_none());
    assert!(store.session.is_some());
    let stale = cleanup_stale_cpu_native_overlay_session(&mut store, 3).expect("stale session");
    assert_eq!(stale.generation, 2);
    assert!(store.session.is_none());
}
