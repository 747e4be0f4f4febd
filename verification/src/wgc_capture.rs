//! The GPU capture backends behind a common frame-source interface.
use vstd::prelude::*;

use crate::capture::{CaptureBackendKind, MonitorCaptureBounds, RgbaFrame};
use crate::dxgi_capture::{
    DxgiCaptureError, DxgiDesktopDuplicationBackend as NativeDxgiDesktopDuplicationBackend,
    dxgi_required_capabilities,
};
use crate::dxgi_session::{DxgiDuplicationSessionContract, DxgiDuplicationSessionState};
use crate::gpu::{
    GpuCapabilityRequirement, GpuCaptureBackend, GpuCaptureCapability, GpuCaptureFallback,
    GpuCaptureStatus, GpuTextureInterop,
};
use crate::text::{decimal, push_i64, push_u64, signed_decimal};
use crate::wgc_contract::{WgcContractStage, WgcNativeApiProbe, WgcOneFrameProbeDiagnostics};
use crate::wgc_probe::{default_wgc_one_frame_probe_contract, probe_wgc_native_api_support};

verus! {

/// Why a GPU capture backend could not start or capture.
#[derive(Debug, Clone, PartialEq, Eq)]
pub enum GpuCaptureBackendError {
    NotImplemented { backend: GpuCaptureBackend },
    Unsupported { backend: GpuCaptureBackend, reason: String },
    InvalidBounds(MonitorCaptureBounds),
    CaptureUnavailable { backend: GpuCaptureBackend, reason: String },
}

pub type GpuCaptureBackendResult<T> = Result<T, GpuCaptureBackendError>;

impl GpuCaptureBackendError {
    pub fn not_implemented(backend: GpuCaptureBackend) -> (r: Self)
        ensures
            r == (GpuCaptureBackendError::NotImplemented { backend }),
    {
        GpuCaptureBackendError::NotImplemented { backend }
    }

    pub fn unsupported(backend: GpuCaptureBackend, reason: String) -> (r: Self)
        ensures
            r == (GpuCaptureBackendError::Unsupported { backend, reason }),
    {
        GpuCaptureBackendError::Unsupported { backend, reason }
    }

    pub fn capture_unavailable(backend: GpuCaptureBackend, reason: String) -> (r: Self)
        ensures
            r == (GpuCaptureBackendError::CaptureUnavailable { backend, reason }),
    {
        GpuCaptureBackendError::CaptureUnavailable { backend, reason }
    }

    pub open spec fn spec_message(&self) -> Seq<char> {
        match self {
            GpuCaptureBackendError::NotImplemented { backend } => "GPU capture backend "@
                + backend.spec_debug_name() + " is not implemented yet"@,
            GpuCaptureBackendError::Unsupported { backend, reason } => "GPU capture backend "@
                + backend.spec_debug_name() + " is unsupported: "@ + reason@,
            GpuCaptureBackendError::InvalidBounds(bounds) => "invalid GPU capture bounds: x="@
                + signed_decimal(bounds.origin_x as int) + ", y="@ + signed_decimal(
                bounds.origin_y as int,
            ) + ", width="@ + decimal(bounds.width as nat) + ", height="@ + decimal(
                bounds.height as nat,
            ),
            GpuCaptureBackendError::CaptureUnavailable { backend, reason } => "GPU capture backend "@
                + backend.spec_debug_name() + " is unavailable: "@ + reason@,
        }
    }

    pub fn to_string(&self) -> (r: String)
        ensures
            r@ == self.spec_message(),
    {
        let mut s = String::new();
        match self {
            GpuCaptureBackendError::NotImplemented { backend } => {
                s.append("GPU capture backend ");
                s.append(backend.debug_name());
                s.append(" is not implemented yet");
            },
            GpuCaptureBackendError::Unsupported { backend, reason } => {
                s.append("GPU capture backend ");
                s.append(backend.debug_name());
                s.append(" is unsupported: ");
                s.append(reason.as_str());
            },
            GpuCaptureBackendError::InvalidBounds(bounds) => {
                s.append("invalid GPU capture bounds: x=");
                push_i64(&mut s, bounds.origin_x as i64);
                s.append(", y=");
                push_i64(&mut s, bounds.origin_y as i64);
                s.append(", width=");
                push_u64(&mut s, bounds.width as u64);
                s.append(", height=");
                push_u64(&mut s, bounds.height as u64);
            },
            GpuCaptureBackendError::CaptureUnavailable { backend, reason } => {
                s.append("GPU capture backend ");
                s.append(backend.debug_name());
                s.append(" is unavailable: ");
                s.append(reason.as_str());
            },
        }
        proof {
            assert(s@ =~= self.spec_message());
        }
        s
    }

    /// The GPU-backend error of a DXGI capture error: invalid bounds stay invalid bounds,
    /// an unsupported platform or adapter is unsupported, and every other failure leaves
    /// capture unavailable with the DXGI error's text.
    pub fn from_dxgi_capture_error(error: DxgiCaptureError) -> (r: Self)
        ensures
            match error {
                DxgiCaptureError::InvalidBounds(bounds) => r == GpuCaptureBackendError::InvalidBounds(
                    bounds,
                ),
                DxgiCaptureError::Unsupported { reason } => r == (GpuCaptureBackendError::Unsupported {
                    backend: GpuCaptureBackend::DxgiDesktopDuplication,
                    reason,
                }),
                DxgiCaptureError::AdapterUnavailable { reason } => r
                    == (GpuCaptureBackendError::Unsupported {
                    backend: GpuCaptureBackend::DxgiDesktopDuplication,
                    reason,
                }),
                _ => r matches GpuCaptureBackendError::CaptureUnavailable { backend, reason } && backend
                    == GpuCaptureBackend::DxgiDesktopDuplication && reason@ == error.spec_message(),
            },
    {
        let text = error.to_string();
        match error {
            DxgiCaptureError::InvalidBounds(bounds) => GpuCaptureBackendError::InvalidBounds(bounds),
            DxgiCaptureError::Unsupported { reason } | DxgiCaptureError::AdapterUnavailable {
                reason,
            } => GpuCaptureBackendError::unsupported(GpuCaptureBackend::DxgiDesktopDuplication, reason),
            _ => GpuCaptureBackendError::capture_unavailable(
                GpuCaptureBackend::DxgiDesktopDuplication,
                text,
            ),
        }
    }
}

/// A GPU capture backend as the capture router sees it.
pub trait GpuCaptureFrameSource {
    fn gpu_backend(&self) -> GpuCaptureBackend;

    fn capture_backend_kind(&self) -> CaptureBackendKind;

    fn capability(&self) -> GpuCaptureCapability;

    fn start(&mut self) -> GpuCaptureBackendResult<()> {
        Err(GpuCaptureBackendError::not_implemented(self.gpu_backend()))
    }

    fn stop(&mut self) -> GpuCaptureBackendResult<()> {
        Ok(())
    }

    fn capture_frame(&mut self, bounds: MonitorCaptureBounds) -> GpuCaptureBackendResult<RgbaFrame>;
}

/// The requirements a WGC capture still lacks: the API itself when the platform does
/// not offer it, then the device, the shared texture and the user's consent.
pub open spec fn spec_wgc_missing_requirements(api_supported: bool) -> Seq<GpuCapabilityRequirement> {
    let tail = seq![
        GpuCapabilityRequirement::D3d11Device,
        GpuCapabilityRequirement::D3d11SharedTexture,
        GpuCapabilityRequirement::UserCaptureConsent,
    ];
    if api_supported {
        tail
    } else {
        seq![GpuCapabilityRequirement::WindowsGraphicsCaptureApi] + tail
    }
}

/// The reason a WGC capability gives when the API probe gave none: the next guarded
/// contract stage to wire up.
pub open spec fn spec_wgc_next_stage_reason(next_stage: Option<WgcContractStage>) -> Seq<char> {
    "Windows Graphics Capture API is present; next guarded WGC contract stage is "@ + match next_stage {
        Some(stage) => stage.spec_as_str(),
        None => "one-frame-readback"@,
    } + "."@
}

/// The WGC capability for an API probe and the next contract stage: never usable yet,
/// retrying with DXGI, and naming the probe's reason or the next stage.
pub fn wgc_capability_from_probe(api_probe: WgcNativeApiProbe, next_stage: Option<WgcContractStage>) -> (r:
    GpuCaptureCapability)
    ensures
        r.backend == GpuCaptureBackend::WindowsGraphicsCapture,
        r.texture_interop == GpuTextureInterop::D3d11Texture,
        r.status == GpuCaptureStatus::Unsupported,
        r.missing_requirements@ == spec_wgc_missing_requirements(api_probe.is_supported),
        r.fallback == GpuCaptureFallback::RetryBackend(GpuCaptureBackend::DxgiDesktopDuplication),
        r.reason matches Some(text) && text@ == match api_probe.reason {
            Some(reason) => reason@,
            None => spec_wgc_next_stage_reason(next_stage),
        },
{
    let mut missing_requirements: Vec<GpuCapabilityRequirement> = Vec::new();
    if !api_probe.is_supported {
        missing_requirements.push(GpuCapabilityRequirement::WindowsGraphicsCaptureApi);
    }
    missing_requirements.push(GpuCapabilityRequirement::D3d11Device);
    missing_requirements.push(GpuCapabilityRequirement::D3d11SharedTexture);
    missing_requirements.push(GpuCapabilityRequirement::UserCaptureConsent);
    proof {
        assert(missing_requirements@ =~= spec_wgc_missing_requirements(api_probe.is_supported));
    }
    let reason = match api_probe.reason {
        Some(reason) => reason,
        None => {
            let mut text = String::from_str(
                "Windows Graphics Capture API is present; next guarded WGC contract stage is ",
            );
            match next_stage {
                Some(stage) => text.append(stage.as_str()),
                None => text.append("one-frame-readback"),
            }
            text.append(".");
            proof {
                assert(text@ =~= spec_wgc_next_stage_reason(next_stage));
            }
            text
        },
    };
    GpuCaptureCapability {
        backend: GpuCaptureBackend::WindowsGraphicsCapture,
        texture_interop: GpuTextureInterop::D3d11Texture,
        status: GpuCaptureStatus::Unsupported,
        missing_requirements,
        fallback: GpuCaptureFallback::RetryBackend(GpuCaptureBackend::DxgiDesktopDuplication),
        reason: Some(reason),
    }
}

/// The Windows Graphics Capture backend: diagnostics only until one-frame capture is
/// explicitly enabled.
#[derive(Debug, Default, Clone, Copy)]
pub struct WindowsGraphicsCaptureBackend;

impl WindowsGraphicsCaptureBackend {
    pub fn new() -> (r: Self)
        ensures
            r == WindowsGraphicsCaptureBackend,
    {
        WindowsGraphicsCaptureBackend
    }
}

impl GpuCaptureFrameSource for WindowsGraphicsCaptureBackend {
    fn gpu_backend(&self) -> (r: GpuCaptureBackend)
        ensures
            r == GpuCaptureBackend::WindowsGraphicsCapture,
    {
        GpuCaptureBackend::WindowsGraphicsCapture
    }

    fn capture_backend_kind(&self) -> (r: CaptureBackendKind)
        ensures
            r == CaptureBackendKind::WindowsGraphicsCapture,
    {
        CaptureBackendKind::WindowsGraphicsCapture
    }

    /// This build offers no WGC: the capability lacks the API, the device, the shared
    /// texture and the consent, and names the platform as the reason.
    fn capability(&self) -> (r: GpuCaptureCapability)
        ensures
            r.backend == GpuCaptureBackend::WindowsGraphicsCapture,
            r.status == GpuCaptureStatus::Unsupported,
            r.missing_requirements@ == spec_wgc_missing_requirements(false),
            r.fallback == GpuCaptureFallback::RetryBackend(GpuCaptureBackend::DxgiDesktopDuplication),
            r.reason matches Some(text) && text@ == "Windows Graphics Capture requires Windows"@,
    {
        let api_probe = probe_wgc_native_api_support();
        let diagnostics = WgcOneFrameProbeDiagnostics::from_contract(
            default_wgc_one_frame_probe_contract(),
            api_probe.duplicate(),
        );
        wgc_capability_from_probe(api_probe, diagnostics.next_stage)
    }

    fn start(&mut self) -> (r: GpuCaptureBackendResult<()>)
        ensures
            r matches Err(GpuCaptureBackendError::Unsupported { backend, reason }) && backend
                == GpuCaptureBackend::WindowsGraphicsCapture && reason@
                == "Windows Graphics Capture requires Windows"@,
    {
        let api_probe = probe_wgc_native_api_support();
        if !api_probe.is_supported {
            let reason = match api_probe.reason {
                Some(reason) => reason,
                None => String::from_str("Windows Graphics Capture API support probe returned false"),
            };
            return Err(GpuCaptureBackendError::unsupported(self.gpu_backend(), reason));
        }
        Err(
            GpuCaptureBackendError::capture_unavailable(
                self.gpu_backend(),
                String::from_str(
                    "WGC API is available, but guarded device/framepool/session contracts are diagnostics-only until one-frame capture is explicitly enabled.",
                ),
            ),
        )
    }

    fn capture_frame(&mut self, bounds: MonitorCaptureBounds) -> (r: GpuCaptureBackendResult<RgbaFrame>)
        ensures
            bounds.spec_is_empty() ==> r == Err::<RgbaFrame, GpuCaptureBackendError>(
                GpuCaptureBackendError::InvalidBounds(bounds),
            ),
            !bounds.spec_is_empty() ==> r == Err::<RgbaFrame, GpuCaptureBackendError>(
                GpuCaptureBackendError::NotImplemented {
                    backend: GpuCaptureBackend::WindowsGraphicsCapture,
                },
            ),
    {
        if bounds.is_empty() {
            return Err(GpuCaptureBackendError::InvalidBounds(bounds));
        }
        Err(GpuCaptureBackendError::not_implemented(self.gpu_backend()))
    }
}

/// The DXGI Desktop Duplication backend behind the common interface.
#[derive(Debug, Default, Clone)]
pub struct DxgiDesktopDuplicationBackend {
    inner: NativeDxgiDesktopDuplicationBackend,
}

impl DxgiDesktopDuplicationBackend {
    /// The bookkeeping of the duplication session behind this backend.
    pub closed spec fn spec_session(&self) -> DxgiDuplicationSessionContract {
        self.inner.spec_session()
    }

    pub fn new() -> (r: Self)
        ensures
            r.spec_session().spec_is_idle(DxgiDuplicationSessionState::Uninitialized),
            r.spec_session().reason is None,
    {
        Self { inner: NativeDxgiDesktopDuplicationBackend::new() }
    }
}

impl GpuCaptureFrameSource for DxgiDesktopDuplicationBackend {
    fn gpu_backend(&self) -> (r: GpuCaptureBackend)
        ensures
            r == GpuCaptureBackend::DxgiDesktopDuplication,
    {
        GpuCaptureBackend::DxgiDesktopDuplication
    }

    fn capture_backend_kind(&self) -> (r: CaptureBackendKind)
        ensures
            r == CaptureBackendKind::DesktopDuplication,
    {
        CaptureBackendKind::DesktopDuplication
    }

    fn capability(&self) -> (r: GpuCaptureCapability)
        ensures
            r.backend == GpuCaptureBackend::DxgiDesktopDuplication,
            r.status == GpuCaptureStatus::Unsupported,
            r.fallback == GpuCaptureFallback::CpuScreenshot,
            r.missing_requirements@ == dxgi_required_capabilities(false),
    {
        self.inner.capability()
    }

    fn start(&mut self) -> (r: GpuCaptureBackendResult<()>)
        ensures
            r matches Err(GpuCaptureBackendError::Unsupported { backend, reason }) && backend
                == GpuCaptureBackend::DxgiDesktopDuplication && reason@
                == "DXGI Desktop Duplication requires Windows"@,
            final(self).spec_session().spec_is_idle(DxgiDuplicationSessionState::Failed),
    {
        match self.inner.start() {
            Ok(()) => Ok(()),
            Err(e) => Err(GpuCaptureBackendError::from_dxgi_capture_error(e)),
        }
    }

    fn stop(&mut self) -> (r: GpuCaptureBackendResult<()>)
        ensures
            r is Ok,
            final(self).spec_session().state == DxgiDuplicationSessionState::Stopped,
            !final(self).spec_session().owns_acquired_frame,
            !final(self).spec_session().requires_release_before_next_acquire,
            final(self).spec_session().frame_id == old(self).spec_session().frame_id,
            final(self).spec_session().reason == old(self).spec_session().reason,
    {
        match self.inner.stop() {
            Ok(()) => Ok(()),
            Err(e) => Err(GpuCaptureBackendError::from_dxgi_capture_error(e)),
        }
    }

    fn capture_frame(&mut self, bounds: MonitorCaptureBounds) -> (r: GpuCaptureBackendResult<RgbaFrame>)
        ensures
            bounds.spec_is_empty() ==> r == Err::<RgbaFrame, GpuCaptureBackendError>(
                GpuCaptureBackendError::InvalidBounds(bounds),
            ),
            !bounds.spec_is_empty() ==> (r matches Err(
                GpuCaptureBackendError::CaptureUnavailable { backend, reason },
            ) && backend == GpuCaptureBackend::DxgiDesktopDuplication && reason@
                == DxgiCaptureError::PlaceholderOnly.spec_message()),
            final(self).spec_session() == old(self).spec_session(),
    {
        if bounds.is_empty() {
            return Err(GpuCaptureBackendError::InvalidBounds(bounds));
        }
        match self.inner.capture_frame(bounds) {
            Ok(frame) => Ok(frame),
            Err(e) => Err(GpuCaptureBackendError::from_dxgi_capture_error(e)),
        }
    }
}

} // verus!
