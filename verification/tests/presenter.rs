use screenshot_native::capture::{CaptureBackendKind, RgbaFrame};
use screenshot_native::presenter::{
    plan_presenter_with_fallback, GpuTextureDescriptor, PresentationFrame, PresenterContract,
    PresenterKind,
};

#[test]
fn falls_back_to_cpu_when_gpu_texture_missing_but_rgba_is_ready() {
    let rgba = RgbaFrame::new(1, 1, vec![1, 2, 3, 4]).expect("valid frame");
    let frame = PresentationFrame {
        presenter: PresenterKind::D3d11Texture,
        backend: CaptureBackendKind::WindowsGraphicsCapture,
        rgba: Some(rgba),
    };

    let plan = plan_presenter_with_fallback(frame, PresenterContract::d3d11_texture(), None);

    assert_eq!(plan.contract.kind, PresenterKind::CpuRgba);
    assert_eq!(plan.frame.presenter, PresenterKind::CpuRgba);
    assert_eq!(plan.diagnostics().active, PresenterKind::CpuRgba);
}

#[test]
fn keeps_gpu_plan_when_texture_is_presentable() {
    let frame = PresentationFrame::gpu_pending_readback(CaptureBackendKind::DesktopDuplication);
    let texture = GpuTextureDescriptor::rgba8_shared(8, 4);

    let plan =
        plan_presenter_with_fallback(frame, PresenterContract::d3d11_texture(), Some(texture));

    assert_eq!(plan.contract.kind, PresenterKind::D3d11Texture);
    assert_eq!(plan.texture, Some(texture));
}

