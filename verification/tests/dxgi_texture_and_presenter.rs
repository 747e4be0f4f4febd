use screenshot_native::d3d11_frame::{D3d11CpuAccessMode, D3d11RawHandle, D3d11TextureFrameFormat};
use screenshot_native::dxgi_presenter_smoke::smoke_dxgi_presenter_contract;
use screenshot_native::dxgi_texture::{
    build_dxgi_texture_frame_contract, DxgiTextureDescriptor, DxgiTextureFrameError,
};
use screenshot_native::presenter::{
    PresentationFallbackReason, PresentationMode, PresentationReadiness, PresenterKind,
};
use std::num::NonZeroU64;

fn descriptor(width: u32, height: u32) -> DxgiTextureDescriptor {
    DxgiTextureDescriptor::new(
        width,
        height,
        D3d11TextureFrameFormat::Bgra8Unorm,
        D3d11RawHandle::new(NonZeroU64::new(0xD11).expect("non-zero handle").get()),
        42,
    )
}

#[test]
fn dxgi_texture_contract_reaches_d3d11_presenter_plan_without_cpu_readback() {
    let report = smoke_dxgi_presenter_contract(descriptor(8, 4)).expect("valid smoke report");

    assert_eq!(report.frame_id, 42);
    assert_eq!(report.width, 8);
    assert_eq!(report.height, 4);
    assert_eq!(report.format, D3d11TextureFrameFormat::Bgra8Unorm);
    assert!(report.requires_gpu_texture);
    assert!(!report.has_cpu_readback);
    assert_eq!(
        report.presentation_mode,
        PresentationMode::SharedD3d11Texture
    );
    assert_eq!(report.active_presenter, PresenterKind::D3d11Texture);
    assert_eq!(report.readiness, PresentationReadiness::NeedsReadback);
    assert_eq!(
        report.fallback_reason,
        PresentationFallbackReason::RecoverableFailure
    );
    assert!(!report.can_present_cpu);
    assert!(report.texture_presentable);
    assert!(!report.requires_cpu_copy);
}

#[test]
fn empty_dxgi_texture_dimensions_fail_before_presenter_planning() {
    let error = smoke_dxgi_presenter_contract(descriptor(0, 4)).expect_err("empty width fails");
    assert!(error.contains("empty DXGI texture dimensions"));
}

#[test]
fn texture_frame_contract_keeps_gpu_texture_without_readback() {
    let descriptor = DxgiTextureDescriptor::new(
        1920,
        1080,
        D3d11TextureFrameFormat::Bgra8Unorm,
        D3d11RawHandle::new(NonZeroU64::new(0x44).expect("non-zero handle").get()),
        7,
    );

    let frame = build_dxgi_texture_frame_contract(descriptor).expect("valid texture frame");

    assert!(frame.readback_bytes.is_none());
    assert!(frame.clone().requires_gpu_texture());
    assert_eq!(frame.metadata.width, 1920);
    assert_eq!(frame.metadata.height, 1080);
    assert_eq!(frame.metadata.frame_id, 7);
    assert_eq!(
        frame.metadata.texture.expect("texture handle").cpu_access,
        D3d11CpuAccessMode::NoAccess
    );
}

#[test]
fn texture_frame_contract_rejects_empty_dimensions() {
    let descriptor = DxgiTextureDescriptor::new(
        0,
        1080,
        D3d11TextureFrameFormat::Bgra8Unorm,
        D3d11RawHandle::new(NonZeroU64::new(0x44).expect("non-zero handle").get()),
        7,
    );

    assert!(matches!(
        build_dxgi_texture_frame_contract(descriptor),
        Err(DxgiTextureFrameError::EmptyDimensions { .. })
    ));
}

#[test]
fn empty_dimensions_error_text_names_both_sides() {
    let error = smoke_dxgi_presenter_contract(descriptor(3, 0)).expect_err("empty height fails");
    assert_eq!(error, "empty DXGI texture dimensions: 3x0");
}
