use screenshot_native::dxgi_capture::DxgiFirstFrameWarmup;
use screenshot_native::dxgi_session::{
    map_acquire_frame_error, DXGI_ERROR_ACCESS_LOST_CODE, DXGI_ERROR_WAIT_TIMEOUT_CODE,
};
use screenshot_native::capture::{CaptureBackendKind, MonitorCaptureBounds};
use screenshot_native::dxgi_capture::{
    DxgiCaptureError, DxgiCaptureFallbackTarget, DxgiDesktopDuplicationContract,
};
use screenshot_native::dxgi_output::DxgiDesktopCoordinates;
use screenshot_native::dxgi_probe::DxgiNativeApiProbe;
use screenshot_native::dxgi_session::{DxgiDuplicationSessionContract, DxgiDuplicationSessionState};
use screenshot_native::gpu::{GpuCaptureFallback, GpuCaptureStatus};

#[test]
fn placeholder_contract_falls_back_to_cpu() {
    let contract = DxgiDesktopDuplicationContract::placeholder();

    assert_eq!(
        contract.capture_contract.backend,
        CaptureBackendKind::DesktopDuplication
    );
    assert_eq!(contract.fallback(), GpuCaptureFallback::CpuScreenshot);
    assert_eq!(contract.capability().status, GpuCaptureStatus::Unsupported);
}

#[test]
fn empty_bounds_are_not_fallback_safe() {
    let error = DxgiCaptureError::InvalidBounds(MonitorCaptureBounds::new(0, 0, 0, 100));

    assert_eq!(error.fallback(), DxgiCaptureFallbackTarget::Unavailable);
}

#[test]
fn dxgi_native_probe_retains_optional_desktop_coordinates() {
    let probe = DxgiNativeApiProbe::available_with_desktop_coordinates(
        Some(DxgiDesktopCoordinates::new(0, 0, 1920, 1080)),
        None,
    );

    assert!(probe.supports_duplication_probe());
    assert_eq!(
        probe
            .desktop_coordinates
            .and_then(DxgiDesktopCoordinates::bounds),
        Some(MonitorCaptureBounds::new(0, 0, 1920, 1080))
    );
}

#[test]
fn session_tracks_duplicate_output_readiness() {
    let mut session = DxgiDuplicationSessionContract::native_api_available();
    session.mark_duplicate_output_ready();
    assert_eq!(
        session.state,
        DxgiDuplicationSessionState::DuplicateOutputReady
    );
    session.mark_frame_acquired();
    assert!(session.requires_release_before_next_acquire);
    session.mark_frame_released();
    assert_eq!(
        session.state,
        DxgiDuplicationSessionState::DuplicateOutputReady
    );
}

#[test]
fn invalid_bounds_error_text_and_timeout_fallback_are_stable() {
    let error = DxgiCaptureError::InvalidBounds(MonitorCaptureBounds::new(1, 2, 0, 4));
    assert_eq!(
        error.to_string(),
        "invalid DXGI capture bounds: x=1, y=2, width=0, height=4"
    );
    assert_eq!(
        DxgiCaptureError::frame_timeout("slow".to_string()).fallback(),
        DxgiCaptureFallbackTarget::ExistingCpuScreenshot
    );
}


#[test]
fn first_frame_warmup_gives_up_after_its_budget() {
    let mut warmup = DxgiFirstFrameWarmup::new();
    let mut spent = 0u32;
    loop {
        match warmup.next_attempt() {
            Ok(timeout) => {
                spent += timeout;
                assert!(spent <= 500);
                let outcome = Err(DxgiCaptureError::frame_timeout("not ready".to_string()));
                assert_eq!(warmup.after_attempt(timeout, outcome), None);
            }
            Err(error) => {
                assert_eq!(
                    error,
                    DxgiCaptureError::frame_timeout(
                        "DXGI first-frame warmup exhausted 500 ms after 10 attempts: not ready"
                            .to_string()
                    )
                );
                break;
            }
        }
    }
    assert_eq!(warmup.attempts, 10);
}

#[test]
fn first_frame_warmup_stops_on_frame_or_hard_error() {
    let mut warmup = DxgiFirstFrameWarmup::new();
    let timeout = warmup.next_attempt().expect("budget left");
    assert_eq!(timeout, 50);
    assert_eq!(warmup.after_attempt(timeout, Ok(())), Some(Ok(())));
    let lost = DxgiCaptureError::access_lost("gone".to_string());
    assert_eq!(warmup.after_attempt(timeout, Err(lost.clone())), Some(Err(lost)));
    assert_eq!(warmup.elapsed_budget_ms, 0);
}

#[test]
fn acquire_errors_map_by_hresult() {
    assert_eq!(
        map_acquire_frame_error(DXGI_ERROR_WAIT_TIMEOUT_CODE, "timeout"),
        DxgiCaptureError::frame_timeout("DXGI AcquireNextFrame was not ready: timeout".to_string())
    );
    assert_eq!(
        map_acquire_frame_error(DXGI_ERROR_ACCESS_LOST_CODE, "lost"),
        DxgiCaptureError::access_lost(
            "DXGI AcquireNextFrame access was lost and duplication must be recreated: lost"
                .to_string()
        )
    );
    assert_eq!(
        map_acquire_frame_error(-1, "other"),
        DxgiCaptureError::frame_unavailable(
            "IDXGIOutputDuplication::AcquireNextFrame failed: other".to_string()
        )
    );
    assert_eq!(DXGI_ERROR_WAIT_TIMEOUT_CODE as u32, 0x887A0027);
}

#[test]
fn native_probe_contract_carries_the_probe_session() {
    let failed = DxgiNativeApiProbe {
        is_windows: true,
        has_factory: false,
        has_adapter: false,
        has_output: false,
        desktop_coordinates: None,
        reason: None,
    };
    let contract = DxgiDesktopDuplicationContract::from_native_probe(failed.clone());
    assert_eq!(contract.session, DxgiDuplicationSessionContract::from_probe(&failed));
    assert_eq!(contract.session.state, DxgiDuplicationSessionState::Failed);
    assert_eq!(
        contract.session.reason.as_deref(),
        Some("DXGI factory, adapter, or output probe failed")
    );
    let placeholder = DxgiDesktopDuplicationContract::placeholder();
    assert_eq!(
        placeholder.session.reason.as_deref(),
        Some("DXGI Desktop Duplication requires Windows")
    );
}
