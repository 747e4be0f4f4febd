//! Choosing how a captured frame is presented: CPU upload or a shared D3D11 texture,
//! with a fallback to the CPU path when the GPU path is not ready.
use vstd::prelude::*;

use crate::capture::{CaptureBackendKind, RgbaFrame};

verus! {

/// How frames reach the screen.
#[derive(Debug, Clone, Copy, PartialEq, Eq, Structural)]
pub enum PresenterKind {
    CpuRgba,
    D3d11Texture,
}

impl PresenterKind {
    pub open spec fn spec_requires_gpu(self) -> bool {
        self is D3d11Texture
    }

    pub fn requires_gpu(self) -> (r: bool)
        ensures
            r == self.spec_requires_gpu(),
    {
        match self {
            PresenterKind::D3d11Texture => true,
            PresenterKind::CpuRgba => false,
        }
    }

    /// Every presenter falls back to CPU upload.
    pub fn fallback(self) -> (r: Self)
        ensures
            r == PresenterKind::CpuRgba,
    {
        match self {
            PresenterKind::CpuRgba => PresenterKind::CpuRgba,
            PresenterKind::D3d11Texture => PresenterKind::CpuRgba,
        }
    }
}

/// How a presenter moves pixels.
#[derive(Debug, Clone, Copy, PartialEq, Eq, Structural)]
pub enum PresentationMode {
    ImmediateCpuUpload,
    SharedD3d11Texture,
    GpuWithCpuReadback,
}

/// What a frame still needs before it can be presented.
#[derive(Debug, Clone, Copy, PartialEq, Eq, Structural)]
pub enum PresentationReadiness {
    Ready,
    NeedsReadback,
    NeedsGpuInterop,
    FallbackRequired,
}

/// What went wrong with presentation.
#[derive(Debug, Clone, Copy, PartialEq, Eq, Structural)]
pub enum PresentationFailureKind {
    BackendUnavailable,
    TextureInteropUnavailable,
    ReadbackUnavailable,
    InvalidFrame,
    ProtectedContent,
}

/// Why a plan falls back (`NoReason` when it does not).
#[derive(Debug, Clone, Copy, PartialEq, Eq, Structural)]
pub enum PresentationFallbackReason {
    NoReason,
    CpuFrameReady,
    GpuInteropUnavailable,
    GpuReadbackPending,
    InvalidCpuFrame,
    InvalidTexture,
    RecoverableFailure,
}

/// A presentation failure, whether the CPU path can recover it, and its text.
#[derive(Debug, Clone, PartialEq, Eq)]
pub struct PresentationFailure {
    pub kind: PresentationFailureKind,
    pub recoverable: bool,
    pub message: String,
}

impl PresentationFailure {
    pub open spec fn is(&self, kind: PresentationFailureKind, recoverable: bool, message: Seq<char>) -> bool {
        self.kind == kind && self.recoverable == recoverable && self.message@ == message
    }

    pub fn recoverable(kind: PresentationFailureKind, message: String) -> (r: Self)
        ensures
            r.kind == kind && r.recoverable && r.message == message,
    {
        Self { kind, recoverable: true, message }
    }

    pub fn fatal(kind: PresentationFailureKind, message: String) -> (r: Self)
        ensures
            r.kind == kind && !r.recoverable && r.message == message,
    {
        Self { kind, recoverable: false, message }
    }

    pub fn duplicate(&self) -> (r: Self)
        ensures
            r == *self,
    {
        Self { kind: self.kind, recoverable: self.recoverable, message: self.message.clone() }
    }
}

/// A GPU texture offered for presentation.
#[derive(Debug, Clone, Copy, PartialEq, Eq, Structural)]
pub struct GpuTextureDescriptor {
    pub width: u32,
    pub height: u32,
    pub format_rgba8: bool,
    pub shared_handle_available: bool,
    pub keyed_mutex_required: bool,
}

impl GpuTextureDescriptor {
    pub open spec fn spec_is_presentable(self) -> bool {
        self.width > 0 && self.height > 0 && self.format_rgba8 && self.shared_handle_available
    }

    pub fn rgba8_shared(width: u32, height: u32) -> (r: Self)
        ensures
            r == (GpuTextureDescriptor {
                width,
                height,
                format_rgba8: true,
                shared_handle_available: true,
                keyed_mutex_required: false,
            }),
    {
        Self {
            width,
            height,
            format_rgba8: true,
            shared_handle_available: true,
            keyed_mutex_required: false,
        }
    }

    pub fn is_presentable(self) -> (r: bool)
        ensures
            r == self.spec_is_presentable(),
    {
        self.width > 0 && self.height > 0 && self.format_rgba8 && self.shared_handle_available
    }
}

/// What a presenter does.
#[derive(Debug, Clone, Copy, PartialEq, Eq, Structural)]
pub struct PresenterContract {
    pub kind: PresenterKind,
    pub mode: PresentationMode,
    pub supports_dirty_regions: bool,
    pub supports_negative_origin: bool,
    pub requires_cpu_copy: bool,
}

impl PresenterContract {
    pub open spec fn spec_cpu_rgba() -> Self {
        PresenterContract {
            kind: PresenterKind::CpuRgba,
            mode: PresentationMode::ImmediateCpuUpload,
            supports_dirty_regions: false,
            supports_negative_origin: true,
            requires_cpu_copy: true,
        }
    }

    pub open spec fn spec_d3d11_texture() -> Self {
        PresenterContract {
            kind: PresenterKind::D3d11Texture,
            mode: PresentationMode::SharedD3d11Texture,
            supports_dirty_regions: true,
            supports_negative_origin: true,
            requires_cpu_copy: false,
        }
    }

    pub fn cpu_rgba() -> (r: Self)
        ensures
            r == Self::spec_cpu_rgba(),
    {
        Self {
            kind: PresenterKind::CpuRgba,
            mode: PresentationMode::ImmediateCpuUpload,
            supports_dirty_regions: false,
            supports_negative_origin: true,
            requires_cpu_copy: true,
        }
    }

    pub fn d3d11_texture() -> (r: Self)
        ensures
            r == Self::spec_d3d11_texture(),
    {
        Self {
            kind: PresenterKind::D3d11Texture,
            mode: PresentationMode::SharedD3d11Texture,
            supports_dirty_regions: true,
            supports_negative_origin: true,
            requires_cpu_copy: false,
        }
    }

    pub fn gpu_readback() -> (r: Self)
        ensures
            r == (PresenterContract {
                kind: PresenterKind::D3d11Texture,
                mode: PresentationMode::GpuWithCpuReadback,
                supports_dirty_regions: true,
                supports_negative_origin: true,
                requires_cpu_copy: true,
            }),
    {
        Self {
            kind: PresenterKind::D3d11Texture,
            mode: PresentationMode::GpuWithCpuReadback,
            supports_dirty_regions: true,
            supports_negative_origin: true,
            requires_cpu_copy: true,
        }
    }

    /// Every contract falls back to CPU upload.
    pub fn fallback(self) -> (r: Self)
        ensures
            r == Self::spec_cpu_rgba(),
    {
        match self.kind {
            PresenterKind::CpuRgba => Self::cpu_rgba(),
            PresenterKind::D3d11Texture => Self::cpu_rgba(),
        }
    }
}

/// A frame to present: the presenter it is meant for, its backend and any CPU pixels.
#[derive(Debug, Clone)]
pub struct PresentationFrame {
    pub presenter: PresenterKind,
    pub backend: CaptureBackendKind,
    pub rgba: Option<RgbaFrame>,
}

/// The frame holds tightly packed CPU pixels.
pub open spec fn has_packed_rgba(rgba: Option<RgbaFrame>) -> bool {
    rgba matches Some(f) && f.spec_is_tightly_packed_rgba()
}

impl PresentationFrame {
    pub open spec fn spec_can_present_cpu(&self) -> bool {
        has_packed_rgba(self.rgba)
    }

    /// CPU frames are ready with packed pixels; GPU frames from a GPU backend need
    /// interop (with pixels) or readback (without); GPU frames from the CPU backend are
    /// ready with packed pixels; anything else must fall back.
    pub open spec fn spec_readiness(&self) -> PresentationReadiness {
        match self.presenter {
            PresenterKind::CpuRgba => if has_packed_rgba(self.rgba) {
                PresentationReadiness::Ready
            } else {
                PresentationReadiness::FallbackRequired
            },
            PresenterKind::D3d11Texture => if self.backend.spec_is_gpu() {
                if has_packed_rgba(self.rgba) {
                    PresentationReadiness::NeedsGpuInterop
                } else if self.rgba is None {
                    PresentationReadiness::NeedsReadback
                } else {
                    PresentationReadiness::FallbackRequired
                }
            } else if has_packed_rgba(self.rgba) {
                PresentationReadiness::Ready
            } else {
                PresentationReadiness::FallbackRequired
            },
        }
    }

    pub fn cpu(backend: CaptureBackendKind, rgba: RgbaFrame) -> (r: Self)
        ensures
            r.presenter == PresenterKind::CpuRgba,
            r.backend == backend,
            r.rgba == Some(rgba),
    {
        Self { presenter: PresenterKind::CpuRgba, backend, rgba: Some(rgba) }
    }

    pub fn gpu_pending_readback(backend: CaptureBackendKind) -> (r: Self)
        ensures
            r.presenter == PresenterKind::D3d11Texture,
            r.backend == backend,
            r.rgba is None,
    {
        Self { presenter: PresenterKind::D3d11Texture, backend, rgba: None }
    }

    pub fn readiness(&self) -> (r: PresentationReadiness)
        ensures
            r == self.spec_readiness(),
    {
        let packed = self.can_present_cpu();
        match self.presenter {
            PresenterKind::CpuRgba => {
                if packed {
                    PresentationReadiness::Ready
                } else {
                    PresentationReadiness::FallbackRequired
                }
            },
            PresenterKind::D3d11Texture => {
                if self.backend.is_gpu() {
                    if packed {
                        PresentationReadiness::NeedsGpuInterop
                    } else if self.rgba.is_none() {
                        PresentationReadiness::NeedsReadback
                    } else {
                        PresentationReadiness::FallbackRequired
                    }
                } else if packed {
                    PresentationReadiness::Ready
                } else {
                    PresentationReadiness::FallbackRequired
                }
            },
        }
    }

    pub fn can_present_cpu(&self) -> (r: bool)
        ensures
            r == self.spec_can_present_cpu(),
    {
        match &self.rgba {
            Some(frame) => frame.is_tightly_packed_rgba(),
            None => false,
        }
    }

    pub fn fallback_to_cpu(self) -> (r: Self)
        ensures
            r.presenter == PresenterKind::CpuRgba,
            r.backend == self.backend,
            r.rgba == self.rgba,
    {
        Self { presenter: self.presenter.fallback(), ..self }
    }
}

/// A presentation plan: the contract, the frame, an optional texture and any failure.
#[derive(Debug, Clone)]
pub struct PresentationPlan {
    pub contract: PresenterContract,
    pub frame: PresentationFrame,
    pub texture: Option<GpuTextureDescriptor>,
    pub failure: Option<PresentationFailure>,
}

/// A summary of a plan for diagnostics.
#[derive(Debug, Clone, PartialEq, Eq)]
pub struct PresentationDiagnostics {
    pub preferred: PresenterKind,
    pub active: PresenterKind,
    pub backend: CaptureBackendKind,
    pub readiness: PresentationReadiness,
    pub fallback_reason: PresentationFallbackReason,
    pub failure: Option<PresentationFailure>,
    pub can_present_cpu: bool,
}

impl PresentationPlan {
    pub open spec fn spec_recoverable_failure(&self) -> bool {
        self.failure matches Some(f) && f.recoverable
    }

    pub open spec fn spec_bad_texture(&self) -> bool {
        self.texture matches Some(t) && !t.spec_is_presentable()
    }

    pub open spec fn spec_needs_fallback(&self) -> bool {
        self.spec_recoverable_failure() || self.frame.spec_readiness()
            == PresentationReadiness::FallbackRequired || self.spec_bad_texture()
    }

    pub open spec fn spec_fallback_reason(&self) -> PresentationFallbackReason {
        if self.spec_recoverable_failure() {
            PresentationFallbackReason::RecoverableFailure
        } else if self.spec_bad_texture() {
            PresentationFallbackReason::InvalidTexture
        } else {
            match self.frame.spec_readiness() {
                PresentationReadiness::Ready => PresentationFallbackReason::NoReason,
                PresentationReadiness::NeedsGpuInterop => PresentationFallbackReason::GpuInteropUnavailable,
                PresentationReadiness::NeedsReadback => PresentationFallbackReason::GpuReadbackPending,
                PresentationReadiness::FallbackRequired => if self.frame.spec_can_present_cpu() {
                    PresentationFallbackReason::CpuFrameReady
                } else {
                    PresentationFallbackReason::InvalidCpuFrame
                },
            }
        }
    }

    /// `r` is `self` switched to the CPU path when it needs a fallback and has CPU pixels,
    /// and `self` unchanged otherwise.
    pub open spec fn is_cpu_fallback_of(&self, r: PresentationPlan) -> bool {
        if r.spec_needs_fallback() && r.frame.spec_can_present_cpu() {
            &&& self.contract == PresenterContract::spec_cpu_rgba()
            &&& self.frame.presenter == PresenterKind::CpuRgba
            &&& self.frame.backend == r.frame.backend
            &&& self.frame.rgba == r.frame.rgba
            &&& self.texture is None
            &&& self.failure == r.failure
        } else {
            *self == r
        }
    }

    pub fn ready_cpu(frame: PresentationFrame) -> (r: Self)
        ensures
            r.contract == PresenterContract::spec_cpu_rgba(),
            r.frame == frame,
            r.texture is None,
            r.failure is None,
    {
        Self { contract: PresenterContract::cpu_rgba(), frame, texture: None, failure: None }
    }

    pub fn ready_gpu(frame: PresentationFrame, texture: GpuTextureDescriptor) -> (r: Self)
        ensures
            r.contract == PresenterContract::spec_d3d11_texture(),
            r.frame == frame,
            r.texture == Some(texture),
            r.failure is None,
    {
        Self {
            contract: PresenterContract::d3d11_texture(),
            frame,
            texture: Some(texture),
            failure: None,
        }
    }

    pub fn with_failure(
        frame: PresentationFrame,
        contract: PresenterContract,
        failure: PresentationFailure,
    ) -> (r: Self)
        ensures
            r.contract == contract,
            r.frame == frame,
            r.texture is None,
            r.failure == Some(failure),
    {
        Self { contract, frame, texture: None, failure: Some(failure) }
    }

    pub fn needs_fallback(&self) -> (r: bool)
        ensures
            r == self.spec_needs_fallback(),
    {
        let recoverable = match &self.failure {
            Some(f) => f.recoverable,
            None => false,
        };
        let bad_texture = match self.texture {
            Some(t) => !t.is_presentable(),
            None => false,
        };
        let readiness = self.frame.readiness();
        recoverable || match readiness {
            PresentationReadiness::FallbackRequired => true,
            _ => false,
        } || bad_texture
    }

    pub fn fallback_reason(&self) -> (r: PresentationFallbackReason)
        ensures
            r == self.spec_fallback_reason(),
    {
        let recoverable = match &self.failure {
            Some(f) => f.recoverable,
            None => false,
        };
        if recoverable {
            return PresentationFallbackReason::RecoverableFailure;
        }
        let bad_texture = match self.texture {
            Some(t) => !t.is_presentable(),
            None => false,
        };
        if bad_texture {
            return PresentationFallbackReason::InvalidTexture;
        }
        match self.frame.readiness() {
            PresentationReadiness::Ready => PresentationFallbackReason::NoReason,
            PresentationReadiness::NeedsGpuInterop => PresentationFallbackReason::GpuInteropUnavailable,
            PresentationReadiness::NeedsReadback => PresentationFallbackReason::GpuReadbackPending,
            PresentationReadiness::FallbackRequired => {
                if self.frame.can_present_cpu() {
                    PresentationFallbackReason::CpuFrameReady
                } else {
                    PresentationFallbackReason::InvalidCpuFrame
                }
            },
        }
    }

    pub fn with_cpu_fallback(self) -> (r: Self)
        ensures
            r.is_cpu_fallback_of(self),
    {
        if self.needs_fallback() && self.frame.can_present_cpu() {
            let contract = self.contract.fallback();
            Self { contract, frame: self.frame.fallback_to_cpu(), texture: None, failure: self.failure }
        } else {
            self
        }
    }

    pub fn diagnostics(&self) -> (r: PresentationDiagnostics)
        ensures
            r.preferred == self.contract.kind,
            r.active == self.frame.presenter,
            r.backend == self.frame.backend,
            r.readiness == self.frame.spec_readiness(),
            r.fallback_reason == self.spec_fallback_reason(),
            r.failure == self.failure,
            r.can_present_cpu == self.frame.spec_can_present_cpu(),
    {
        let failure = match &self.failure {
            Some(f) => Some(f.duplicate()),
            None => None,
        };
        PresentationDiagnostics {
            preferred: self.contract.kind,
            active: self.frame.presenter,
            backend: self.frame.backend,
            readiness: self.frame.readiness(),
            fallback_reason: self.fallback_reason(),
            failure,
            can_present_cpu: self.frame.can_present_cpu(),
        }
    }
}

/// The failure a preferred presenter meets with a frame and an optional texture.
pub open spec fn spec_plan_failure(
    preferred: PresenterKind,
    readiness: PresentationReadiness,
    texture: Option<GpuTextureDescriptor>,
) -> Option<(PresentationFailureKind, bool, Seq<char>)> {
    if preferred is D3d11Texture && readiness is NeedsReadback {
        Some(
            (
                PresentationFailureKind::ReadbackUnavailable,
                true,
                "native presenter needs GPU readback before D3D11 presentation"@,
            ),
        )
    } else if preferred is D3d11Texture && readiness is NeedsGpuInterop && texture is None {
        Some(
            (
                PresentationFailureKind::TextureInteropUnavailable,
                true,
                "native presenter has no shareable D3D11 texture descriptor"@,
            ),
        )
    } else if preferred is D3d11Texture && (texture matches Some(t) && !t.spec_is_presentable()) {
        Some(
            (
                PresentationFailureKind::TextureInteropUnavailable,
                true,
                "native presenter texture descriptor is not presentable"@,
            ),
        )
    } else if readiness is FallbackRequired {
        Some(
            (
                PresentationFailureKind::InvalidFrame,
                true,
                "native presenter frame is not tightly packed RGBA"@,
            ),
        )
    } else {
        None
    }
}

/// Plans presentation with the preferred presenter, recording the failure it meets,
/// then falls back to CPU upload when that is needed and possible.
pub fn plan_presenter_with_fallback(
    frame: PresentationFrame,
    preferred: PresenterContract,
    texture: Option<GpuTextureDescriptor>,
) -> (r: PresentationPlan)
    ensures
        exists|plan: PresentationPlan|
            {
                &&& plan.contract == preferred
                &&& plan.frame == frame
                &&& plan.texture == texture
                &&& match spec_plan_failure(preferred.kind, frame.spec_readiness(), texture) {
                    None => plan.failure is None,
                    Some((kind, recoverable, message)) => plan.failure matches Some(f) && f.is(
                        kind,
                        recoverable,
                        message,
                    ),
                }
                &&& r.is_cpu_fallback_of(plan)
            },
{
    let readiness = frame.readiness();
    let is_d3d11 = match preferred.kind {
        PresenterKind::D3d11Texture => true,
        PresenterKind::CpuRgba => false,
    };
    let needs_readback = match readiness {
        PresentationReadiness::NeedsReadback => true,
        _ => false,
    };
    let needs_interop = match readiness {
        PresentationReadiness::NeedsGpuInterop => true,
        _ => false,
    };
    let fallback_required = match readiness {
        PresentationReadiness::FallbackRequired => true,
        _ => false,
    };
    let bad_texture = match texture {
        Some(t) => !t.is_presentable(),
        None => false,
    };
    let failure = if is_d3d11 && needs_readback {
        Some(
            PresentationFailure::recoverable(
                PresentationFailureKind::ReadbackUnavailable,
                String::from_str("native presenter needs GPU readback before D3D11 presentation"),
            ),
        )
    } else if is_d3d11 && needs_interop && texture.is_none() {
        Some(
            PresentationFailure::recoverable(
                PresentationFailureKind::TextureInteropUnavailable,
                String::from_str("native presenter has no shareable D3D11 texture descriptor"),
            ),
        )
    } else if is_d3d11 && bad_texture {
        Some(
            PresentationFailure::recoverable(
                PresentationFailureKind::TextureInteropUnavailable,
                String::from_str("native presenter texture descriptor is not presentable"),
            ),
        )
    } else if fallback_required {
        Some(
            PresentationFailure::recoverable(
                PresentationFailureKind::InvalidFrame,
                String::from_str("native presenter frame is not tightly packed RGBA"),
            ),
        )
    } else {
        None
    };
    let plan = PresentationPlan { contract: preferred, frame, texture, failure };
    let ghost g = plan;
    let r = plan.with_cpu_fallback();
    proof {
        assert(r.is_cpu_fallback_of(g));
    }
    r
}

} // verus!
