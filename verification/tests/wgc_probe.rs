use screenshot_native::capture::MonitorCaptureBounds;
use screenshot_native::output::SelectionRect;
use screenshot_native::wgc_contract::{
    WgcContractStage, WgcNativeApiProbe, WgcOneFrameProbeContract, WgcOneFrameProbeDiagnostics,
    WgcOneFrameProbeError, WgcOneFrameProbeFallback, WgcOneFrameProbeRequest,
    WgcOneFrameProbeStatus, WgcOneFrameSmokeStatus,
};
use screenshot_native::wgc_device::{probe_wgc_direct3d_device_bridge, WgcDeviceBridgeError};
use screenshot_native::wgc_probe::{
    default_wgc_one_frame_probe_plan, planned_wgc_one_frame_smoke_report,
    resolve_wgc_one_frame_probe_plan, resolve_wgc_one_frame_smoke_report,
};
use screenshot_native::wgc_readback::{
    selected_rect_from_wgc_monitor_bounds, WgcSelectedReadbackError,
};

#[test]
fn non_windows_probe_reports_attempted_failure() {
    let report = probe_wgc_direct3d_device_bridge();
    assert!(report.attempted);
    assert!(!report.ok);
    assert!(report.error.unwrap_or_default().contains("Windows"));
}

#[test]
fn bridge_error_display_is_stable() {
    let error = WgcDeviceBridgeError::UnsupportedFormat {
        format: "Unknown".to_string(),
    };
    assert!(error.to_string().contains("unsupported WGC texture format"));
}

#[test]
fn default_plan_is_disabled_and_falls_back() {
    let plan = default_wgc_one_frame_probe_plan();
    assert_eq!(plan.status, WgcOneFrameProbeStatus::Disabled);
    assert!(!plan.should_attempt_probe);
    assert_eq!(
        plan.fallback,
        WgcOneFrameProbeFallback::ExistingScreenshotPath
    );
    assert!(plan.error.is_none());
    assert_eq!(plan.diagnostics.next_stage, Some(WgcContractStage::Device));
}

#[test]
fn default_smoke_report_never_claims_frame_capture() {
    let report = planned_wgc_one_frame_smoke_report();
    assert_eq!(report.status, WgcOneFrameSmokeStatus::NotRun);
    assert!(!report.attempted_real_wgc_api);
    assert!(!report.frame_capture_attempted);
    assert!(!report.frame_capture_confirmed);
}

#[test]
fn ready_to_attempt_still_does_not_claim_frame_capture() {
    let report = resolve_wgc_one_frame_smoke_report(WgcOneFrameProbeRequest {
        explicit_opt_in: true,
        allow_real_wgc_api: true,
        frame_timeout_ms: 500,
    });
    if report.should_attempt_probe {
        assert_eq!(report.status, WgcOneFrameSmokeStatus::ReadyToAttempt);
    }
    assert!(!report.attempted_real_wgc_api);
    assert!(!report.frame_capture_attempted);
    assert!(!report.frame_capture_confirmed);
}

#[test]
fn contract_splits_device_framepool_and_session_requirements() {
    let contract = WgcOneFrameProbeContract::guarded_one_frame(250);
    let diagnostics =
        WgcOneFrameProbeDiagnostics::from_contract(contract, WgcNativeApiProbe::supported());
    assert_eq!(contract.framepool.frame_timeout_ms, 250);
    for stage in [
        WgcContractStage::Device,
        WgcContractStage::FramePool,
        WgcContractStage::Session,
    ] {
        assert!(diagnostics
            .missing_requirements
            .iter()
            .any(|requirement| requirement.stage() == stage));
    }
}

#[test]
fn explicit_placeholder_resolves_diagnostics_without_real_api() {
    let plan =
        resolve_wgc_one_frame_probe_plan(WgcOneFrameProbeRequest::explicit_placeholder(500));
    assert_eq!(plan.status, WgcOneFrameProbeStatus::GuardedDiagnosticsReady);
    assert!(!plan.should_attempt_probe);
    assert!(matches!(
        plan.error,
        Some(WgcOneFrameProbeError::ContractNotReady { .. })
    ));
    assert!(plan
        .diagnostics
        .api_probe
        .reason
        .as_deref()
        .unwrap_or_default()
        .contains("skipped"));
}

#[test]
fn selected_rect_is_monitor_local() {
    let requested = MonitorCaptureBounds::new(110, 220, 320, 180);
    let target = MonitorCaptureBounds::new(100, 200, 1920, 1080);

    let rect = selected_rect_from_wgc_monitor_bounds(Some(requested), Some(target)).unwrap();

    assert_eq!(rect, SelectionRect::new(10, 20, 320, 180));
}

#[test]
fn selected_rect_rejects_outside_target() {
    let requested = MonitorCaptureBounds::new(90, 220, 320, 180);
    let target = MonitorCaptureBounds::new(100, 200, 1920, 1080);

    let error =
        selected_rect_from_wgc_monitor_bounds(Some(requested), Some(target)).unwrap_err();

    assert_eq!(error, WgcSelectedReadbackError::SelectionOutsideTarget);
}

