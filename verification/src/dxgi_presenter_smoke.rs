//! Planning the presentation of a captured DXGI texture, without any CPU readback.
use vstd::prelude::*;

use crate::capture::CaptureBackendKind;
use crate::d3d11_frame::{D3d11TextureFrame, D3d11TextureFrameFormat};
use crate::dxgi_texture::{build_dxgi_texture_frame_contract, DxgiTextureDescriptor};
use crate::presenter::{
    plan_presenter_with_fallback, GpuTextureDescriptor, PresentationFallbackReason, PresentationFrame,
    PresentationMode, PresentationReadiness, PresenterContract, PresenterKind,
};

verus! {

/// What planning the presentation of a DXGI texture frame showed.
#[derive(Debug, Clone, PartialEq, Eq)]
pub struct DxgiPresenterSmokeReport {
    pub frame_id: u64,
    pub width: u32,
    pub height: u32,
    pub format: D3d11TextureFrameFormat,
    pub requires_gpu_texture: bool,
    pub has_cpu_readback: bool,
    pub presentation_mode: PresentationMode,
    pub active_presenter: PresenterKind,
    pub readiness: PresentationReadiness,
    pub fallback_reason: PresentationFallbackReason,
    pub can_present_cpu: bool,
    pub texture_presentable: bool,
    pub requires_cpu_copy: bool,
}

/// The texture descriptor a DXGI frame offers the presenter: its size, an 8-bit RGBA
/// format, a shareable handle when it has a texture or a shared handle.
pub open spec fn spec_gpu_texture_descriptor(frame: D3d11TextureFrame) -> GpuTextureDescriptor {
    GpuTextureDescriptor {
        width: frame.metadata.width,
        height: frame.metadata.height,
        format_rgba8: true,
        shared_handle_available: frame.metadata.texture is Some
            || frame.metadata.shared_handle.spec_is_shared(),
        keyed_mutex_required: frame.metadata.shared_handle.keyed_mutex_required,
    }
}

pub fn gpu_texture_descriptor_from_dxgi_frame(frame: &D3d11TextureFrame) -> (r: GpuTextureDescriptor)
    ensures
        r == spec_gpu_texture_descriptor(*frame),
{
    let format_rgba8 = match frame.metadata.format {
        D3d11TextureFrameFormat::Bgra8Unorm | D3d11TextureFrameFormat::Rgba8Unorm => true,
    };
    GpuTextureDescriptor {
        width: frame.metadata.width,
        height: frame.metadata.height,
        format_rgba8,
        shared_handle_available: frame.metadata.texture.is_some()
            || frame.metadata.shared_handle.is_shared(),
        keyed_mutex_required: frame.metadata.shared_handle.keyed_mutex_required,
    }
}

/// Plans the D3D11 presentation of a texture frame that has not been read back.
///
/// The frame is offered to the D3D11 presenter as a GPU frame pending readback: the plan
/// records the recoverable readback failure and, with no CPU pixels to fall back to,
/// stays on the shared-texture presenter without a CPU copy.
pub fn smoke_dxgi_texture_frame_presenter_contract(frame: D3d11TextureFrame) -> (r:
    DxgiPresenterSmokeReport)
    ensures
        r.frame_id == frame.metadata.frame_id,
        r.width == frame.metadata.width && r.height == frame.metadata.height,
        r.format == frame.metadata.format,
        r.requires_gpu_texture == (frame.metadata.texture is Some
            || frame.metadata.shared_handle.spec_is_shared()),
        r.has_cpu_readback == frame.readback_bytes is Some,
        r.presentation_mode == PresentationMode::SharedD3d11Texture,
        r.active_presenter == PresenterKind::D3d11Texture,
        r.readiness == PresentationReadiness::NeedsReadback,
        r.fallback_reason == PresentationFallbackReason::RecoverableFailure,
        !r.can_present_cpu,
        r.texture_presentable == spec_gpu_texture_descriptor(frame).spec_is_presentable(),
        !r.requires_cpu_copy,
{
    let metadata = frame.metadata;
    let texture = gpu_texture_descriptor_from_dxgi_frame(&frame);
    let requires_gpu_texture = frame.metadata.texture.is_some() || frame.metadata.shared_handle.is_shared();
    let has_cpu_readback = frame.readback_bytes.is_some();
    let presentation_frame = PresentationFrame::gpu_pending_readback(CaptureBackendKind::DesktopDuplication);
    let plan = plan_presenter_with_fallback(
        presentation_frame,
        PresenterContract::d3d11_texture(),
        Some(texture),
    );
    let diagnostics = plan.diagnostics();
    DxgiPresenterSmokeReport {
        frame_id: metadata.frame_id,
        width: metadata.width,
        height: metadata.height,
        format: metadata.format,
        requires_gpu_texture,
        has_cpu_readback,
        presentation_mode: plan.contract.mode,
        active_presenter: diagnostics.active,
        readiness: diagnostics.readiness,
        fallback_reason: diagnostics.fallback_reason,
        can_present_cpu: diagnostics.can_present_cpu,
        texture_presentable: texture.is_presentable(),
        requires_cpu_copy: plan.contract.requires_cpu_copy,
    }
}

/// Builds the texture frame of a DXGI descriptor and plans its presentation; a
/// descriptor with empty dimensions fails before any planning, with the frame error's
/// text.
pub fn smoke_dxgi_presenter_contract(descriptor: DxgiTextureDescriptor) -> (r: Result<
    DxgiPresenterSmokeReport,
    String,
>)
    ensures
        descriptor.width == 0 || descriptor.height == 0 ==> (r matches Err(text) && text@
            == "empty DXGI texture dimensions: "@ + crate::text::decimal(descriptor.width as nat)
            + "x"@ + crate::text::decimal(descriptor.height as nat)),
        descriptor.width != 0 && descriptor.height != 0 ==> (r matches Ok(report) && report.frame_id
            == descriptor.frame_id && report.width == descriptor.width && report.height
            == descriptor.height && report.format == descriptor.format && report.requires_gpu_texture
            && !report.has_cpu_readback && report.texture_presentable
            && report.presentation_mode == PresentationMode::SharedD3d11Texture
            && report.active_presenter == PresenterKind::D3d11Texture
            && report.readiness == PresentationReadiness::NeedsReadback
            && report.fallback_reason == PresentationFallbackReason::RecoverableFailure
            && !report.can_present_cpu && !report.requires_cpu_copy),
{
    let frame = match build_dxgi_texture_frame_contract(descriptor) {
        Ok(frame) => frame,
        Err(error) => {
            return Err(error.to_string());
        },
    };
    Ok(smoke_dxgi_texture_frame_presenter_contract(frame))
}

} // verus!
