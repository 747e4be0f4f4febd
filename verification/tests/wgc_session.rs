use screenshot_native::capture::MonitorCaptureBounds;
use screenshot_native::wgc_contract::WgcOneFrameProbeRequest;
use screenshot_native::wgc_session::{
    default_wgc_one_frame_session_options, guarded_wgc_one_frame_session,
    WgcOneFrameSessionOptions, WgcSelectedMonitorFrameEvidence, WgcSessionError,
    WgcSessionState,
};
use screenshot_native::wgc_target::WgcCaptureTarget;

fn explicit_real_options() -> WgcOneFrameSessionOptions {
    WgcOneFrameSessionOptions {
        request: WgcOneFrameProbeRequest {
            explicit_opt_in: true,
            allow_real_wgc_api: true,
            frame_timeout_ms: 250,
        },
        target: WgcCaptureTarget::Monitor { hmonitor: 1 },
        width: 1920,
        height: 1080,
        requested_bounds: Some(MonitorCaptureBounds::new(100, 100, 320, 200)),
        target_bounds: Some(MonitorCaptureBounds::new(0, 0, 1920, 1080)),
        include_cursor: false,
        require_border: false,
        buffer_count: 1,
    }
}

#[test]
fn default_session_options_do_not_attempt_real_wgc_api() {
    let options = default_wgc_one_frame_session_options(
        WgcCaptureTarget::Monitor { hmonitor: 1 },
        1920,
        1080,
    );
    let report = guarded_wgc_one_frame_session(options);

    assert_eq!(report.state, WgcSessionState::Disabled);
    assert!(!report.attempted_real_wgc_api);
    assert!(!report.created_device);
    assert!(!report.created_frame_pool);
    assert!(!report.started_capture);
    assert!(!report.acquired_frame);
    assert!(
        !report
            .selected_monitor_frame_evidence
            .frame_matches_target_monitor_bounds
    );
    assert!(
        !report
            .selected_monitor_frame_evidence
            .selected_crop_within_frame
    );
    assert!(!report.selected_monitor_frame_evidence.selected_png_produced);
    assert!(matches!(
        report.error,
        Some(WgcSessionError::ExplicitOptInRequired)
    ));
}

#[test]
fn explicit_placeholder_still_blocks_real_api() {
    let mut options =
        default_wgc_one_frame_session_options(WgcCaptureTarget::Window { hwnd: 1 }, 1280, 720);
    options.request = WgcOneFrameProbeRequest::explicit_placeholder(250);
    let report = guarded_wgc_one_frame_session(options);

    assert_eq!(report.state, WgcSessionState::Disabled);
    assert!(!report.attempted_real_wgc_api);
    assert!(matches!(
        report.error,
        Some(WgcSessionError::RealApiNotAllowed)
    ));
}

#[test]
fn invalid_timeout_fails_before_real_api_attempt() {
    let mut options = explicit_real_options();
    options.request.frame_timeout_ms = 0;
    let report = guarded_wgc_one_frame_session(options);

    assert_eq!(report.state, WgcSessionState::InvalidRequest);
    assert!(!report.attempted_real_wgc_api);
    assert!(matches!(
        report.error,
        Some(WgcSessionError::InvalidFrameTimeoutMs { timeout_ms: 0 })
    ));
}

#[test]
fn invalid_dimensions_fail_before_real_api_attempt() {
    let mut options = explicit_real_options();
    options.width = 0;
    let report = guarded_wgc_one_frame_session(options);

    assert_eq!(report.state, WgcSessionState::InvalidRequest);
    assert!(!report.attempted_real_wgc_api);
    assert!(matches!(
        report.error,
        Some(WgcSessionError::InvalidDimensions {
            width: 0,
            height: 1080
        })
    ));
}

#[test]
fn invalid_target_handle_fails_before_real_api_attempt() {
    let mut options = explicit_real_options();
    options.target = WgcCaptureTarget::Window { hwnd: 0 };
    let report = guarded_wgc_one_frame_session(options);

    assert_eq!(report.state, WgcSessionState::InvalidRequest);
    assert!(!report.attempted_real_wgc_api);
    assert!(matches!(
        report.error,
        Some(WgcSessionError::InvalidTarget { .. })
    ));
}

#[test]
fn selected_monitor_frame_evidence_matches_target_monitor() {
    let requested = MonitorCaptureBounds::new(100, 100, 320, 200);
    let target = MonitorCaptureBounds::new(0, 0, 1920, 1080);

    let evidence = WgcSelectedMonitorFrameEvidence::from_session(
        Some(requested),
        Some(target),
        Some(1920),
        Some(1080),
        false,
        false,
    );

    assert!(evidence.diagnostic_only);
    assert!(evidence.frame_matches_target_monitor_bounds);
    assert!(evidence.selected_crop_within_frame);
    assert!(!evidence.selected_png_produced);
    assert!(!evidence.persistent_handle_exposed);
    assert!(!evidence.readiness_changed);
}

#[test]
fn selected_monitor_frame_evidence_rejects_selected_sized_frame() {
    let requested = MonitorCaptureBounds::new(100, 100, 320, 200);
    let target = MonitorCaptureBounds::new(0, 0, 1920, 1080);

    let evidence = WgcSelectedMonitorFrameEvidence::from_session(
        Some(requested),
        Some(target),
        Some(320),
        Some(200),
        false,
        false,
    );

    assert!(!evidence.frame_matches_target_monitor_bounds);
    assert!(evidence.selected_crop_within_frame);
}

#[test]
fn selected_monitor_frame_evidence_detects_out_of_target_crop() {
    let requested = MonitorCaptureBounds::new(-10, 100, 320, 200);
    let target = MonitorCaptureBounds::new(0, 0, 1920, 1080);

    let evidence = WgcSelectedMonitorFrameEvidence::from_session(
        Some(requested),
        Some(target),
        Some(1920),
        Some(1080),
        false,
        false,
    );

    assert!(evidence.frame_matches_target_monitor_bounds);
    assert!(!evidence.selected_crop_within_frame);
}

#[test]
fn explicit_real_request_is_unsupported_off_windows() {
    let report = guarded_wgc_one_frame_session(explicit_real_options());
    assert!(!report.acquired_frame);
    assert!(!report.selected_monitor_frame_evidence.selected_png_produced);
    assert!(report.error.is_some());
}
