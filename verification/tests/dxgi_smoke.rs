use screenshot_native::capture::{MonitorCaptureBounds, RgbaFrame};
use screenshot_native::d3d11_frame::D3d11TextureFrameFormat;
use screenshot_native::dxgi_session::DxgiDuplicationSessionState;
use screenshot_native::dxgi_smoke::{
    dxgi_readback_smoke_capture_failed, dxgi_readback_smoke_plan, dxgi_readback_smoke_plan_failed,
    dxgi_texture_smoke_capture_failed, finish_dxgi_selected_readback_smoke,
    finish_dxgi_texture_acquisition_smoke, run_dxgi_selected_readback_smoke,
    run_dxgi_texture_acquisition_smoke, DxgiSelectedReadbackSmokeStage, DxgiTextureSmokeStage,
};
use screenshot_native::output::{ImageBounds, SelectionRect};
use screenshot_native::selected_image_bridge::build_selected_png_contract;

#[test]
fn smoke_stage_labels_are_stable() {
    assert_eq!(
        DxgiTextureSmokeStage::TextureAcquired.as_str(),
        "texture-acquired"
    );
    assert_eq!(DxgiTextureSmokeStage::Stopped.as_str(), "stopped");
    assert_eq!(
        DxgiSelectedReadbackSmokeStage::SelectedReadback.as_str(),
        "selected-readback"
    );
}

#[test]
fn selected_readback_smoke_rejects_empty_bounds_without_attempting_runtime() {
    let report = run_dxgi_selected_readback_smoke(MonitorCaptureBounds::new(0, 0, 0, 1));
    assert!(!report.attempted);
    assert!(!report.ok);
    assert!(!report.selected_only);
    assert!(!report.png_signature_valid);
}

#[test]
fn texture_smoke_reports_platform_without_attempting() {
    let report = run_dxgi_texture_acquisition_smoke(MonitorCaptureBounds::new(0, 0, 10, 10));
    assert!(!report.attempted);
    assert!(!report.ok);
    assert!(report.error.is_some());
}

#[test]
fn readback_smoke_capture_failure_reports_stop_failure() {
    let report = dxgi_readback_smoke_capture_failed(7, "timeout", Some("busy".to_string()));
    assert!(report.attempted);
    assert!(!report.stopped);
    assert_eq!(report.stage, DxgiSelectedReadbackSmokeStage::Failed);
    assert_eq!(report.error.as_deref(), Some("started: timeout; stop failed: busy"));
    let stopped = dxgi_readback_smoke_capture_failed(7, "timeout", None);
    assert!(stopped.stopped);
    assert_eq!(stopped.error.as_deref(), Some("started: timeout"));
}

#[test]
fn readback_smoke_plan_needs_output_coordinates() {
    let bounds = MonitorCaptureBounds::new(10, 10, 20, 20);
    assert_eq!(
        dxgi_readback_smoke_plan(bounds, None, ImageBounds::new(100, 100)).unwrap_err(),
        "DXGI output DesktopCoordinates are unavailable"
    );
    let report = dxgi_readback_smoke_plan_failed(bounds, 3, None, Some((0, 1)), "no coordinates");
    assert_eq!(report.requested_bounds, bounds);
    assert_eq!(report.adapter_index, Some(0));
    assert_eq!(report.output_index, Some(1));
    assert_eq!(report.error.as_deref(), Some("texture-acquired: no coordinates"));
}

#[test]
fn readback_smoke_finish_reports_selected_png() {
    let bounds = MonitorCaptureBounds::new(0, 0, 2, 1);
    let plan = dxgi_readback_smoke_plan(bounds, Some(bounds), ImageBounds::new(2, 1)).expect("plan");
    let frame =
        RgbaFrame::new(2, 1, vec![255, 0, 0, 255, 0, 255, 0, 255]).expect("valid test frame");
    let image = build_selected_png_contract(&frame, SelectionRect::new(0, 0, 2, 1)).expect("png");
    let report = finish_dxgi_selected_readback_smoke(
        bounds,
        9,
        42,
        D3d11TextureFrameFormat::Bgra8Unorm,
        Some(bounds),
        Some((0, 0)),
        plan.clone(),
        Ok(image),
        None,
        None,
    );
    assert!(report.ok);
    assert_eq!(report.stage, DxgiSelectedReadbackSmokeStage::Stopped);
    assert!(report.selected_only && report.png_signature_valid);
    assert!(report.copy_subresource_region);
    assert_eq!(report.crop, Some(plan.mapping.crop));

    let failed = finish_dxgi_selected_readback_smoke(
        bounds,
        9,
        42,
        D3d11TextureFrameFormat::Bgra8Unorm,
        Some(bounds),
        None,
        plan,
        Err("map failed".to_string()),
        Some("lost".to_string()),
        None,
    );
    assert!(!failed.ok);
    assert_eq!(failed.stage, DxgiSelectedReadbackSmokeStage::Stopped);
    assert!(!failed.released_frame);
    assert_eq!(failed.error.as_deref(), Some("map failed"));
}

#[test]
fn texture_smoke_stages_follow_release_and_stop() {
    let report = finish_dxgi_texture_acquisition_smoke(
        5,
        1,
        640,
        480,
        D3d11TextureFrameFormat::Bgra8Unorm,
        DxgiDuplicationSessionState::Stopped,
        Some("release".to_string()),
        Some("stop".to_string()),
    );
    assert_eq!(report.stage, DxgiTextureSmokeStage::TextureAcquired);
    assert_eq!(report.error.as_deref(), Some("release failed: release"));
    assert!(!report.ok);
    let clean = finish_dxgi_texture_acquisition_smoke(
        5,
        1,
        640,
        480,
        D3d11TextureFrameFormat::Bgra8Unorm,
        DxgiDuplicationSessionState::Stopped,
        None,
        None,
    );
    assert!(clean.ok);
    assert_eq!(clean.stage, DxgiTextureSmokeStage::Stopped);
    let capture_failed = dxgi_texture_smoke_capture_failed(
        5,
        DxgiDuplicationSessionState::Failed,
        "timeout",
        None,
    );
    assert!(capture_failed.stopped);
    assert_eq!(capture_failed.error.as_deref(), Some("started: timeout"));
}
