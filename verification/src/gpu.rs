//! GPU capture capabilities and the D3D11 probe that gates them.
use vstd::prelude::*;

use crate::gpu_device::{
    create_d3d11_capture_device, D3d11AdapterPreference, D3d11DeviceCreateOptions,
    D3d11DeviceDiagnostics, D3d11DeviceError, D3d11FeatureLevel,
};

verus! {

/// The GPU capture APIs.
#[derive(Debug, Clone, Copy, PartialEq, Eq, Structural)]
pub enum GpuCaptureBackend {
    WindowsGraphicsCapture,
    DxgiDesktopDuplication,
}

impl GpuCaptureBackend {
    /// The variant name, as a derived `Debug` prints it.
    pub open spec fn spec_debug_name(self) -> Seq<char> {
        match self {
            GpuCaptureBackend::WindowsGraphicsCapture => "WindowsGraphicsCapture"@,
            GpuCaptureBackend::DxgiDesktopDuplication => "DxgiDesktopDuplication"@,
        }
    }

    pub fn debug_name(self) -> (r: &'static str)
        ensures
            r@ == self.spec_debug_name(),
    {
        match self {
            GpuCaptureBackend::WindowsGraphicsCapture => "WindowsGraphicsCapture",
            GpuCaptureBackend::DxgiDesktopDuplication => "DxgiDesktopDuplication",
        }
    }
}

/// How captured textures reach the CPU.
#[derive(Debug, Clone, Copy, PartialEq, Eq, Structural)]
pub enum GpuTextureInterop {
    D3d11Texture,
    CpuReadableBitmap,
}

/// The state of a GPU capture path.
#[derive(Debug, Clone, Copy, PartialEq, Eq, Structural)]
pub enum GpuCaptureStatus {
    Unknown,
    Unsupported,
    Initializing,
    Ready,
    Degraded,
    Failed,
}

/// Something a GPU capture path needs.
#[derive(Debug, Clone, Copy, PartialEq, Eq, Structural)]
pub enum GpuCapabilityRequirement {
    WindowsGraphicsCaptureApi,
    DxgiOutputDuplicationApi,
    D3d11Device,
    D3d11SharedTexture,
    UserCaptureConsent,
    CompatibleAdapter,
}

/// What to try when a GPU capture path is not usable.
#[derive(Debug, Clone, Copy, PartialEq, Eq, Structural)]
pub enum GpuCaptureFallback {
    NotNeeded,
    RetryBackend(GpuCaptureBackend),
    RetryTextureInterop(GpuTextureInterop),
    CpuScreenshot,
    Unavailable,
}

/// One GPU capture path and whether it can be used.
#[derive(Debug, Clone, PartialEq, Eq)]
pub struct GpuCaptureCapability {
    pub backend: GpuCaptureBackend,
    pub texture_interop: GpuTextureInterop,
    pub status: GpuCaptureStatus,
    pub missing_requirements: Vec<GpuCapabilityRequirement>,
    pub fallback: GpuCaptureFallback,
    pub reason: Option<String>,
}

impl GpuCaptureCapability {
    pub open spec fn spec_is_usable(&self) -> bool {
        self.status is Ready || self.status is Degraded
    }

    /// `r` is a blocked capability with the given fields.
    pub open spec fn is_blocked_with(
        &self,
        backend: GpuCaptureBackend,
        texture_interop: GpuTextureInterop,
        missing_requirements: Seq<GpuCapabilityRequirement>,
        fallback: GpuCaptureFallback,
        reason: Seq<char>,
    ) -> bool {
        &&& self.backend == backend
        &&& self.texture_interop == texture_interop
        &&& self.status == GpuCaptureStatus::Unsupported
        &&& self.missing_requirements@ == missing_requirements
        &&& self.fallback == fallback
        &&& self.reason matches Some(text) && text@ == reason
    }

    /// `r` is a degraded capability with the given fields.
    pub open spec fn is_degraded_with(
        &self,
        backend: GpuCaptureBackend,
        texture_interop: GpuTextureInterop,
        fallback: GpuCaptureFallback,
        reason: Seq<char>,
    ) -> bool {
        &&& self.backend == backend
        &&& self.texture_interop == texture_interop
        &&& self.status == GpuCaptureStatus::Degraded
        &&& self.missing_requirements@.len() == 0
        &&& self.fallback == fallback
        &&& self.reason matches Some(text) && text@ == reason
    }

    pub fn ready(backend: GpuCaptureBackend, texture_interop: GpuTextureInterop) -> (r: Self)
        ensures
            r.backend == backend,
            r.texture_interop == texture_interop,
            r.status == GpuCaptureStatus::Ready,
            r.missing_requirements@.len() == 0,
            r.fallback == GpuCaptureFallback::NotNeeded,
            r.reason is None,
    {
        Self {
            backend,
            texture_interop,
            status: GpuCaptureStatus::Ready,
            missing_requirements: Vec::new(),
            fallback: GpuCaptureFallback::NotNeeded,
            reason: None,
        }
    }

    pub fn blocked(
        backend: GpuCaptureBackend,
        texture_interop: GpuTextureInterop,
        missing_requirements: Vec<GpuCapabilityRequirement>,
        fallback: GpuCaptureFallback,
        reason: String,
    ) -> (r: Self)
        ensures
            r.is_blocked_with(backend, texture_interop, missing_requirements@, fallback, reason@),
    {
        Self {
            backend,
            texture_interop,
            status: GpuCaptureStatus::Unsupported,
            missing_requirements,
            fallback,
            reason: Some(reason),
        }
    }

    pub fn degraded(
        backend: GpuCaptureBackend,
        texture_interop: GpuTextureInterop,
        fallback: GpuCaptureFallback,
        reason: String,
    ) -> (r: Self)
        ensures
            r.is_degraded_with(backend, texture_interop, fallback, reason@),
    {
        Self {
            backend,
            texture_interop,
            status: GpuCaptureStatus::Degraded,
            missing_requirements: Vec::new(),
            fallback,
            reason: Some(reason),
        }
    }

    pub fn is_usable(&self) -> (r: bool)
        ensures
            r == self.spec_is_usable(),
    {
        match self.status {
            GpuCaptureStatus::Ready | GpuCaptureStatus::Degraded => true,
            _ => false,
        }
    }
}

/// A primary GPU capture path and the paths to try after it.
#[derive(Debug, Clone, PartialEq, Eq)]
pub struct GpuCapturePlan {
    pub primary: GpuCaptureCapability,
    pub fallbacks: Vec<GpuCaptureCapability>,
}

impl GpuCapturePlan {
    /// The primary path followed by the fallbacks, in order.
    pub open spec fn spec_paths(&self) -> Seq<GpuCaptureCapability> {
        seq![self.primary] + self.fallbacks@
    }

    /// The first usable path, if any.
    pub fn selected(&self) -> (r: Option<&GpuCaptureCapability>)
        ensures
            match r {
                Some(c) => exists|i: int|
                    0 <= i < self.spec_paths().len() && *c == self.spec_paths()[i]
                        && c.spec_is_usable() && forall|j: int|
                        0 <= j < i ==> !(#[trigger] self.spec_paths()[j]).spec_is_usable(),
                None => forall|j: int|
                    0 <= j < self.spec_paths().len()
                        ==> !(#[trigger] self.spec_paths()[j]).spec_is_usable(),
            },
    {
        if self.primary.is_usable() {
            proof {
                assert(self.spec_paths()[0] == self.primary);
            }
            return Some(&self.primary);
        }
        let mut i: usize = 0;
        while i < self.fallbacks.len()
            invariant
                i <= self.fallbacks@.len(),
                !self.primary.spec_is_usable(),
                forall|j: int| 0 <= j < i ==> !(#[trigger] self.fallbacks@[j]).spec_is_usable(),
            decreases self.fallbacks@.len() - i,
        {
            if self.fallbacks[i].is_usable() {
                proof {
                    assert(self.spec_paths()[i + 1] == self.fallbacks@[i as int]);
                    assert forall|j: int| 0 <= j < i + 1 implies !(#[trigger] self.spec_paths()[
                        j
                    ]).spec_is_usable() by {
                        if j > 0 {
                            assert(self.spec_paths()[j] == self.fallbacks@[j - 1]);
                        }
                    }
                }
                return Some(&self.fallbacks[i]);
            }
            i = i + 1;
        }
        proof {
            assert forall|j: int| 0 <= j < self.spec_paths().len() implies !(
            #[trigger] self.spec_paths()[j]).spec_is_usable() by {
                if j > 0 {
                    assert(self.spec_paths()[j] == self.fallbacks@[j - 1]);
                }
            }
        }
        None
    }
}

/// The outcome of probing for a D3D11 capture device.
#[derive(Debug, Clone, PartialEq, Eq)]
pub struct D3d11GpuProbeReport {
    pub capability: GpuCaptureCapability,
    pub diagnostics: D3d11DeviceDiagnostics,
}

/// The reason reported when the probe itself cannot create a device on this platform.
pub open spec fn platform_probe_reason() -> Seq<char> {
    "D3D11 unavailable: D3D11 capture device creation is compile-gated to Windows builds; use existing CPU screenshot path."@
}

/// The reason attached to the CPU-readable fallback path of the GPU plan.
pub open spec fn diagnostic_only_reason() -> Seq<char> {
    "D3D11 texture path is diagnostic-only until WGC/DXGI frame acquisition is integrated; keep existing CPU screenshot path as the safe runtime fallback."@
}

impl D3d11GpuProbeReport {
    pub open spec fn spec_safe_fallback_reason(&self) -> Seq<char> {
        match self.capability.reason {
            Some(reason) => reason@,
            None => "D3D11 probe did not provide a fallback reason"@,
        }
    }

    pub fn safe_fallback_reason(&self) -> (r: String)
        ensures
            r@ == self.spec_safe_fallback_reason(),
    {
        match &self.capability.reason {
            Some(reason) => reason.clone(),
            None => String::from_str("D3D11 probe did not provide a fallback reason"),
        }
    }
}

/// The probe with the default adapter and options.
pub fn probe_d3d11_gpu_capability() -> (r: D3d11GpuProbeReport)
    ensures
        r.capability.is_blocked_with(
            GpuCaptureBackend::WindowsGraphicsCapture,
            GpuTextureInterop::D3d11Texture,
            seq![GpuCapabilityRequirement::D3d11Device],
            GpuCaptureFallback::CpuScreenshot,
            platform_probe_reason(),
        ),
        D3d11DeviceDiagnostics::spec_fallback(
            D3d11DeviceCreateOptions {
                adapter_preference: D3d11AdapterPreference::Default,
                minimum_feature_level: D3d11FeatureLevel::V11_0,
                enable_debug_layer: false,
            },
            platform_probe_reason(),
            r.diagnostics,
        ),
{
    let defaults = D3d11DeviceCreateOptions::default();
    probe_d3d11_gpu_capability_with_options(
        D3d11DeviceCreateOptions { adapter_preference: D3d11AdapterPreference::Default, ..defaults },
    )
}

/// Probes for a capture device; where none can be created the capability is blocked on
/// the D3D11 device and the CPU screenshot path is the fallback.
pub fn probe_d3d11_gpu_capability_with_options(options: D3d11DeviceCreateOptions) -> (r:
    D3d11GpuProbeReport)
    ensures
        r.capability.is_blocked_with(
            GpuCaptureBackend::WindowsGraphicsCapture,
            GpuTextureInterop::D3d11Texture,
            seq![GpuCapabilityRequirement::D3d11Device],
            GpuCaptureFallback::CpuScreenshot,
            platform_probe_reason(),
        ),
        D3d11DeviceDiagnostics::spec_fallback(options, platform_probe_reason(), r.diagnostics),
{
    let reason = match create_d3d11_capture_device(options) {
        Ok(_) => String::from_str("D3D11 unexpectedly reported success on a non-Windows build"),
        Err(error) => error.safe_fallback_reason(),
    };
    proof {
        reveal_strlit("D3D11 unavailable: ");
        reveal_strlit("D3D11 capture device creation is compile-gated to Windows builds");
        reveal_strlit("; use existing CPU screenshot path.");
        reveal_strlit(
            "D3D11 unavailable: D3D11 capture device creation is compile-gated to Windows builds; use existing CPU screenshot path.",
        );
        assert(reason@ =~= platform_probe_reason());
    }
    let requirements = vec![GpuCapabilityRequirement::D3d11Device];
    proof {
        assert(requirements@ =~= seq![GpuCapabilityRequirement::D3d11Device]);
    }
    let reason_copy = reason.clone();
    D3d11GpuProbeReport {
        capability: GpuCaptureCapability::blocked(
            GpuCaptureBackend::WindowsGraphicsCapture,
            GpuTextureInterop::D3d11Texture,
            requirements,
            GpuCaptureFallback::CpuScreenshot,
            reason_copy,
        ),
        diagnostics: D3d11DeviceDiagnostics::fallback(options, reason),
    }
}

/// The D3D11-first plan: the probed D3D11 path, then a degraded CPU-readable bitmap path.
pub fn d3d11_first_gpu_capture_plan() -> (r: GpuCapturePlan)
    ensures
        r.primary.is_blocked_with(
            GpuCaptureBackend::WindowsGraphicsCapture,
            GpuTextureInterop::D3d11Texture,
            seq![GpuCapabilityRequirement::D3d11Device],
            GpuCaptureFallback::CpuScreenshot,
            platform_probe_reason(),
        ),
        r.fallbacks@.len() == 1,
        r.fallbacks@[0].is_degraded_with(
            GpuCaptureBackend::WindowsGraphicsCapture,
            GpuTextureInterop::CpuReadableBitmap,
            GpuCaptureFallback::CpuScreenshot,
            diagnostic_only_reason(),
        ),
{
    let d3d11_probe = probe_d3d11_gpu_capability();
    let fallback = GpuCaptureCapability::degraded(
        GpuCaptureBackend::WindowsGraphicsCapture,
        GpuTextureInterop::CpuReadableBitmap,
        GpuCaptureFallback::CpuScreenshot,
        String::from_str(
            "D3D11 texture path is diagnostic-only until WGC/DXGI frame acquisition is integrated; keep existing CPU screenshot path as the safe runtime fallback.",
        ),
    );
    let mut fallbacks: Vec<GpuCaptureCapability> = Vec::new();
    fallbacks.push(fallback);
    GpuCapturePlan { primary: d3d11_probe.capability, fallbacks }
}

} // verus!
