//! The DXGI Desktop Duplication capture backend: its contract, its errors and the
//! session bookkeeping around frame acquisition.
use vstd::prelude::*;

use crate::capture::{
    CaptureBackendContract, CaptureBackendKind, MonitorCaptureBounds, RgbaFrame,
};
use crate::d3d11_frame::D3d11TextureFrame;
use crate::dxgi_output::DxgiOutputRankingEvidence;
use crate::dxgi_probe::{probe_dxgi_native_api_support, DxgiNativeApiProbe};
use crate::dxgi_session::{DxgiDuplicationSessionContract, DxgiDuplicationSessionState};
use crate::gpu::{
    GpuCapabilityRequirement, GpuCaptureBackend, GpuCaptureCapability, GpuCaptureFallback,
    GpuCaptureStatus, GpuTextureInterop,
};
use crate::text::{decimal, push_i64, push_u64, signed_decimal};

verus! {

pub const DXGI_PLACEHOLDER_REASON: &'static str =
    "DXGI Desktop Duplication backend is a placeholder; native API wiring is intentionally pending.";

/// Where to go when DXGI capture fails.
#[derive(Debug, Clone, Copy, PartialEq, Eq, Structural)]
pub enum DxgiCaptureFallbackTarget {
    ExistingCpuScreenshot,
    Unavailable,
}

impl DxgiCaptureFallbackTarget {
    pub open spec fn spec_as_gpu_fallback(self) -> GpuCaptureFallback {
        match self {
            DxgiCaptureFallbackTarget::ExistingCpuScreenshot => GpuCaptureFallback::CpuScreenshot,
            DxgiCaptureFallbackTarget::Unavailable => GpuCaptureFallback::Unavailable,
        }
    }

    pub fn as_gpu_fallback(self) -> (r: GpuCaptureFallback)
        ensures
            r == self.spec_as_gpu_fallback(),
    {
        match self {
            DxgiCaptureFallbackTarget::ExistingCpuScreenshot => GpuCaptureFallback::CpuScreenshot,
            DxgiCaptureFallbackTarget::Unavailable => GpuCaptureFallback::Unavailable,
        }
    }
}

/// How far the DXGI path is from producing frames.
#[derive(Debug, Clone, Copy, PartialEq, Eq, Structural)]
pub enum DxgiCaptureReadiness {
    PlaceholderOnly,
    Ready,
    Blocked,
}

/// What the DXGI backend promises, and what it still needs.
#[derive(Debug, Clone, PartialEq, Eq)]
pub struct DxgiDesktopDuplicationContract {
    pub capture_contract: CaptureBackendContract,
    pub backend: GpuCaptureBackend,
    pub texture_interop: GpuTextureInterop,
    pub required_capabilities: Vec<GpuCapabilityRequirement>,
    pub readiness: DxgiCaptureReadiness,
    pub fallback_target: DxgiCaptureFallbackTarget,
    pub session: DxgiDuplicationSessionContract,
    pub reason: String,
}

/// The requirements of the DXGI path: the duplication API itself when the probe failed,
/// then a device, shared textures and a compatible adapter.
pub open spec fn dxgi_required_capabilities(probe_ok: bool) -> Seq<GpuCapabilityRequirement> {
    (if probe_ok {
        Seq::empty()
    } else {
        seq![GpuCapabilityRequirement::DxgiOutputDuplicationApi]
    }) + seq![
        GpuCapabilityRequirement::D3d11Device,
        GpuCapabilityRequirement::D3d11SharedTexture,
        GpuCapabilityRequirement::CompatibleAdapter,
    ]
}

/// The reason used when the probe found everything but gave none.
pub open spec fn dxgi_pending_reason() -> Seq<char> {
    "DXGI factory/adapter/output are available; DuplicateOutput, D3D11 device, frame acquire, and readback wiring are pending."@
}

impl DxgiDesktopDuplicationContract {
    /// The contract built from a probe: always blocked, with the CPU screenshot fallback.
    pub open spec fn is_from_probe(&self, api_probe: DxgiNativeApiProbe) -> bool {
        &&& self.capture_contract == CaptureBackendContract::spec_dxgi()
        &&& self.backend == GpuCaptureBackend::DxgiDesktopDuplication
        &&& self.texture_interop == GpuTextureInterop::D3d11Texture
        &&& self.required_capabilities@ == dxgi_required_capabilities(
            api_probe.spec_supports_duplication_probe(),
        )
        &&& self.readiness == DxgiCaptureReadiness::Blocked
        &&& self.fallback_target == DxgiCaptureFallbackTarget::ExistingCpuScreenshot
        &&& self.reason@ == match api_probe.reason {
            Some(reason) => reason@,
            None => dxgi_pending_reason(),
        }
        &&& self.session.spec_is_from_probe(api_probe)
    }

    pub fn placeholder() -> (r: Self)
        ensures
            exists|probe: DxgiNativeApiProbe|
                r.is_from_probe(probe) && !probe.spec_supports_duplication_probe() && (probe.reason
                    matches Some(reason) && reason@ == "DXGI Desktop Duplication requires Windows"@),
    {
        Self::from_native_probe(probe_dxgi_native_api_support())
    }

    pub fn from_native_probe(api_probe: DxgiNativeApiProbe) -> (r: Self)
        ensures
            r.is_from_probe(api_probe),
    {
        let mut required_capabilities = vec![
            GpuCapabilityRequirement::D3d11Device,
            GpuCapabilityRequirement::D3d11SharedTexture,
            GpuCapabilityRequirement::CompatibleAdapter,
        ];
        if !api_probe.supports_duplication_probe() {
            required_capabilities.insert(0, GpuCapabilityRequirement::DxgiOutputDuplicationApi);
        }
        proof {
            assert(required_capabilities@ =~= dxgi_required_capabilities(
                api_probe.spec_supports_duplication_probe(),
            ));
        }
        let session = DxgiDuplicationSessionContract::from_probe(&api_probe);
        let reason = match api_probe.reason {
            Some(reason) => reason,
            None => String::from_str(
                "DXGI factory/adapter/output are available; DuplicateOutput, D3D11 device, frame acquire, and readback wiring are pending.",
            ),
        };
        Self {
            capture_contract: CaptureBackendContract::dxgi(),
            backend: GpuCaptureBackend::DxgiDesktopDuplication,
            texture_interop: GpuTextureInterop::D3d11Texture,
            required_capabilities,
            readiness: DxgiCaptureReadiness::Blocked,
            fallback_target: DxgiCaptureFallbackTarget::ExistingCpuScreenshot,
            session,
            reason,
        }
    }

    /// Ready when the contract is ready; otherwise unsupported, listing the requirements.
    pub fn capability(&self) -> (r: GpuCaptureCapability)
        ensures
            r.backend == self.backend,
            r.texture_interop == self.texture_interop,
            self.readiness is Ready ==> r.status == GpuCaptureStatus::Ready
                && r.missing_requirements@.len() == 0 && r.fallback == GpuCaptureFallback::NotNeeded
                && r.reason is None,
            !(self.readiness is Ready) ==> r.status == GpuCaptureStatus::Unsupported
                && r.missing_requirements@ == self.required_capabilities@ && r.fallback
                == self.fallback_target.spec_as_gpu_fallback() && r.reason == Some(self.reason),
    {
        match self.readiness {
            DxgiCaptureReadiness::Ready => GpuCaptureCapability::ready(
                self.backend,
                self.texture_interop,
            ),
            DxgiCaptureReadiness::PlaceholderOnly | DxgiCaptureReadiness::Blocked => {
                let mut missing: Vec<GpuCapabilityRequirement> = Vec::new();
                let mut i: usize = 0;
                while i < self.required_capabilities.len()
                    invariant
                        i <= self.required_capabilities@.len(),
                        missing@ == self.required_capabilities@.subrange(0, i as int),
                    decreases self.required_capabilities@.len() - i,
                {
                    missing.push(self.required_capabilities[i]);
                    i = i + 1;
                    proof {
                        assert(missing@ =~= self.required_capabilities@.subrange(0, i as int));
                    }
                }
                proof {
                    assert(missing@ =~= self.required_capabilities@);
                }
                GpuCaptureCapability {
                    backend: self.backend,
                    texture_interop: self.texture_interop,
                    status: GpuCaptureStatus::Unsupported,
                    missing_requirements: missing,
                    fallback: self.fallback_target.as_gpu_fallback(),
                    reason: Some(self.reason.clone()),
                }
            },
        }
    }

    pub fn fallback(&self) -> (r: GpuCaptureFallback)
        ensures
            r == self.fallback_target.spec_as_gpu_fallback(),
    {
        self.fallback_target.as_gpu_fallback()
    }
}

/// Why a DXGI capture failed.
#[derive(Debug, Clone, PartialEq, Eq)]
pub enum DxgiCaptureError {
    PlaceholderOnly,
    Unsupported { reason: String },
    InvalidBounds(MonitorCaptureBounds),
    AdapterUnavailable { reason: String },
    FrameUnavailable { reason: String },
    FrameTimeout { reason: String },
    AccessLost { reason: String },
    ProtectedContent,
}

impl DxgiCaptureError {
    pub open spec fn spec_fallback(&self) -> DxgiCaptureFallbackTarget {
        match self {
            DxgiCaptureError::InvalidBounds(_) => DxgiCaptureFallbackTarget::Unavailable,
            DxgiCaptureError::ProtectedContent => DxgiCaptureFallbackTarget::Unavailable,
            _ => DxgiCaptureFallbackTarget::ExistingCpuScreenshot,
        }
    }

    pub open spec fn spec_message(&self) -> Seq<char> {
        match self {
            DxgiCaptureError::PlaceholderOnly => DXGI_PLACEHOLDER_REASON@,
            DxgiCaptureError::Unsupported { reason } => "DXGI capture is unsupported: "@ + reason@,
            DxgiCaptureError::InvalidBounds(bounds) => "invalid DXGI capture bounds: x="@
                + signed_decimal(bounds.origin_x as int) + ", y="@ + signed_decimal(
                bounds.origin_y as int,
            ) + ", width="@ + decimal(bounds.width as nat) + ", height="@ + decimal(
                bounds.height as nat,
            ),
            DxgiCaptureError::AdapterUnavailable { reason } => "DXGI adapter is unavailable: "@
                + reason@,
            DxgiCaptureError::FrameUnavailable { reason } => "DXGI frame is unavailable: "@
                + reason@,
            DxgiCaptureError::FrameTimeout { reason } => "DXGI frame timed out: "@ + reason@,
            DxgiCaptureError::AccessLost { reason } => "DXGI duplication access was lost: "@
                + reason@,
            DxgiCaptureError::ProtectedContent => "DXGI capture returned protected content"@,
        }
    }

    pub fn unsupported(reason: String) -> (r: Self)
        ensures
            r == (DxgiCaptureError::Unsupported { reason }),
    {
        DxgiCaptureError::Unsupported { reason }
    }

    pub fn adapter_unavailable(reason: String) -> (r: Self)
        ensures
            r == (DxgiCaptureError::AdapterUnavailable { reason }),
    {
        DxgiCaptureError::AdapterUnavailable { reason }
    }

    pub fn frame_unavailable(reason: String) -> (r: Self)
        ensures
            r == (DxgiCaptureError::FrameUnavailable { reason }),
    {
        DxgiCaptureError::FrameUnavailable { reason }
    }

    pub fn frame_timeout(reason: String) -> (r: Self)
        ensures
            r == (DxgiCaptureError::FrameTimeout { reason }),
    {
        DxgiCaptureError::FrameTimeout { reason }
    }

    pub fn access_lost(reason: String) -> (r: Self)
        ensures
            r == (DxgiCaptureError::AccessLost { reason }),
    {
        DxgiCaptureError::AccessLost { reason }
    }

    pub fn fallback(&self) -> (r: DxgiCaptureFallbackTarget)
        ensures
            r == self.spec_fallback(),
    {
        match self {
            DxgiCaptureError::InvalidBounds(_) => DxgiCaptureFallbackTarget::Unavailable,
            DxgiCaptureError::ProtectedContent => DxgiCaptureFallbackTarget::Unavailable,
            _ => DxgiCaptureFallbackTarget::ExistingCpuScreenshot,
        }
    }

    pub fn to_string(&self) -> (r: String)
        ensures
            r@ == self.spec_message(),
    {
        let mut s = String::new();
        match self {
            DxgiCaptureError::PlaceholderOnly => {
                s.append(DXGI_PLACEHOLDER_REASON);
            },
            DxgiCaptureError::Unsupported { reason } => {
                s.append("DXGI capture is unsupported: ");
                s.append(reason.as_str());
            },
            DxgiCaptureError::InvalidBounds(bounds) => {
                s.append("invalid DXGI capture bounds: x=");
                push_i64(&mut s, bounds.origin_x as i64);
                s.append(", y=");
                push_i64(&mut s, bounds.origin_y as i64);
                s.append(", width=");
                push_u64(&mut s, bounds.width as u64);
                s.append(", height=");
                push_u64(&mut s, bounds.height as u64);
            },
            DxgiCaptureError::AdapterUnavailable { reason } => {
                s.append("DXGI adapter is unavailable: ");
                s.append(reason.as_str());
            },
            DxgiCaptureError::FrameUnavailable { reason } => {
                s.append("DXGI frame is unavailable: ");
                s.append(reason.as_str());
            },
            DxgiCaptureError::FrameTimeout { reason } => {
                s.append("DXGI frame timed out: ");
                s.append(reason.as_str());
            },
            DxgiCaptureError::AccessLost { reason } => {
                s.append("DXGI duplication access was lost: ");
                s.append(reason.as_str());
            },
            DxgiCaptureError::ProtectedContent => {
                s.append("DXGI capture returned protected content");
            },
        }
        proof {
            assert(s@ =~= self.spec_message());
        }
        s
    }
}

pub type DxgiCaptureResult<T> = Result<T, DxgiCaptureError>;

/// The DXGI backend; off Windows it keeps the session bookkeeping and reports that
/// duplication is unavailable.
#[derive(Debug, Clone)]
pub struct DxgiDesktopDuplicationBackend {
    session: DxgiDuplicationSessionContract,
}

impl DxgiDesktopDuplicationBackend {
    pub closed spec fn spec_session(&self) -> DxgiDuplicationSessionContract {
        self.session
    }

    pub fn new() -> (r: Self)
        ensures
            r.spec_session().spec_is_idle(DxgiDuplicationSessionState::Uninitialized),
            r.spec_session().reason is None,
    {
        Self {
            session: DxgiDuplicationSessionContract {
                state: DxgiDuplicationSessionState::Uninitialized,
                frame_id: 0,
                owns_acquired_frame: false,
                requires_release_before_next_acquire: false,
                reason: None,
            },
        }
    }

    pub fn session_contract(&self) -> (r: &DxgiDuplicationSessionContract)
        ensures
            *r == self.spec_session(),
    {
        &self.session
    }

    /// No output is open off Windows.
    pub fn output_bounds(&self) -> (r: Option<MonitorCaptureBounds>)
        ensures
            r is None,
    {
        None
    }

    pub fn output_identity(&self) -> (r: Option<(u32, u32)>)
        ensures
            r is None,
    {
        None
    }

    pub fn output_ranking(&self) -> (r: Option<&DxgiOutputRankingEvidence>)
        ensures
            r is None,
    {
        None
    }

    pub fn contract(&self) -> (r: DxgiDesktopDuplicationContract)
        ensures
            exists|probe: DxgiNativeApiProbe|
                r.is_from_probe(probe) && !probe.spec_supports_duplication_probe(),
    {
        DxgiDesktopDuplicationContract::placeholder()
    }

    pub fn capture_backend_kind(&self) -> (r: CaptureBackendKind)
        ensures
            r == CaptureBackendKind::DesktopDuplication,
    {
        CaptureBackendKind::DesktopDuplication
    }

    pub fn capability(&self) -> (r: GpuCaptureCapability)
        ensures
            r.backend == GpuCaptureBackend::DxgiDesktopDuplication,
            r.status == GpuCaptureStatus::Unsupported,
            r.fallback == GpuCaptureFallback::CpuScreenshot,
            r.missing_requirements@ == dxgi_required_capabilities(false),
    {
        self.contract().capability()
    }

    pub fn start(&mut self) -> (r: DxgiCaptureResult<()>)
        ensures
            r matches Err(DxgiCaptureError::AdapterUnavailable { reason }) && reason@
                == "DXGI Desktop Duplication requires Windows"@,
            final(self).spec_session().spec_is_idle(DxgiDuplicationSessionState::Failed),
    {
        self.start_for_selection(None)
    }

    pub fn start_for_bounds(&mut self, selection: MonitorCaptureBounds) -> (r: DxgiCaptureResult<()>)
        ensures
            r matches Err(DxgiCaptureError::AdapterUnavailable { reason }) && reason@
                == "DXGI Desktop Duplication requires Windows"@,
            final(self).spec_session().spec_is_idle(DxgiDuplicationSessionState::Failed),
    {
        self.start_for_selection(Some(selection))
    }

    fn start_for_selection(&mut self, selection: Option<MonitorCaptureBounds>) -> (r:
        DxgiCaptureResult<()>)
        ensures
            r matches Err(DxgiCaptureError::AdapterUnavailable { reason }) && reason@
                == "DXGI Desktop Duplication requires Windows"@,
            final(self).spec_session().spec_is_idle(DxgiDuplicationSessionState::Failed),
    {
        let api_probe = probe_dxgi_native_api_support();
        if !api_probe.supports_duplication_probe() {
            self.session = DxgiDuplicationSessionContract::from_probe(&api_probe);
            let reason = match api_probe.reason {
                Some(reason) => reason,
                None => String::from_str("DXGI factory, adapter, or output probe failed"),
            };
            return Err(DxgiCaptureError::adapter_unavailable(reason));
        }
        self.session = DxgiDuplicationSessionContract::from_probe(&api_probe);
        Err(DxgiCaptureError::unsupported(String::from_str("DXGI DuplicateOutput requires Windows")))
    }

    /// Releases any held frame and stops the session.
    pub fn stop(&mut self) -> (r: DxgiCaptureResult<()>)
        ensures
            r is Ok,
            final(self).spec_session().state == DxgiDuplicationSessionState::Stopped,
            !final(self).spec_session().owns_acquired_frame,
            !final(self).spec_session().requires_release_before_next_acquire,
            final(self).spec_session().frame_id == old(self).spec_session().frame_id,
            final(self).spec_session().reason == old(self).spec_session().reason,
    {
        if self.session.owns_acquired_frame {
            match self.release_acquired_frame() {
                Ok(()) => {},
                Err(e) => return Err(e),
            }
        }
        self.session.state = DxgiDuplicationSessionState::Stopped;
        self.session.owns_acquired_frame = false;
        self.session.requires_release_before_next_acquire = false;
        Ok(())
    }

    /// Gives back a held frame; a session without one is left as it is.
    pub fn release_acquired_frame(&mut self) -> (r: DxgiCaptureResult<()>)
        ensures
            r is Ok,
            old(self).spec_session().owns_acquired_frame ==> {
                &&& final(self).spec_session().state
                    == DxgiDuplicationSessionState::DuplicateOutputReady
                &&& !final(self).spec_session().owns_acquired_frame
                &&& !final(self).spec_session().requires_release_before_next_acquire
                &&& final(self).spec_session().frame_id == old(self).spec_session().frame_id
                &&& final(self).spec_session().reason == old(self).spec_session().reason
            },
            !old(self).spec_session().owns_acquired_frame ==> final(self).spec_session() == old(
                self,
            ).spec_session(),
    {
        if self.session.owns_acquired_frame {
            self.session.mark_frame_released();
        }
        Ok(())
    }

    /// Off Windows no texture can be acquired: empty bounds are invalid, others are
    /// answered with the placeholder error.
    pub fn capture_texture_frame(&mut self, bounds: MonitorCaptureBounds) -> (r: DxgiCaptureResult<
        D3d11TextureFrame,
    >)
        ensures
            bounds.spec_is_empty() ==> r == Err::<D3d11TextureFrame, DxgiCaptureError>(
                DxgiCaptureError::InvalidBounds(bounds),
            ),
            !bounds.spec_is_empty() ==> r == Err::<D3d11TextureFrame, DxgiCaptureError>(
                DxgiCaptureError::PlaceholderOnly,
            ),
            final(self).spec_session() == old(self).spec_session(),
    {
        if bounds.is_empty() {
            return Err(DxgiCaptureError::InvalidBounds(bounds));
        }
        Err(DxgiCaptureError::PlaceholderOnly)
    }

    pub fn capture_frame(&mut self, bounds: MonitorCaptureBounds) -> (r: DxgiCaptureResult<
        RgbaFrame,
    >)
        ensures
            bounds.spec_is_empty() ==> (r matches Err(DxgiCaptureError::InvalidBounds(b)) && b
                == bounds),
            !bounds.spec_is_empty() ==> r matches Err(DxgiCaptureError::PlaceholderOnly),
            final(self).spec_session() == old(self).spec_session(),
    {
        if bounds.is_empty() {
            return Err(DxgiCaptureError::InvalidBounds(bounds));
        }
        Err(DxgiCaptureError::PlaceholderOnly)
    }
}

impl Default for DxgiDesktopDuplicationBackend {
    fn default() -> (r: Self)
        ensures
            r.spec_session().spec_is_idle(DxgiDuplicationSessionState::Uninitialized),
    {
        Self::new()
    }
}

/// The time the first acquire after a duplication starts may wait, over all its retries.
pub const DXGI_FIRST_FRAME_TIMEOUT_BUDGET_MS: u32 = 500;

/// The longest single acquire of the first-frame warmup.
pub const DXGI_FIRST_FRAME_ATTEMPT_TIMEOUT_MS: u32 = 50;

/// Where the first-frame warmup of a duplication stands: the budget spent on acquires
/// that timed out, the attempts made, and the reason the last one gave.
#[derive(Debug, Clone, PartialEq, Eq)]
pub struct DxgiFirstFrameWarmup {
    pub elapsed_budget_ms: u32,
    pub attempts: u32,
    pub last_timeout: Option<String>,
}

/// The warmup's verdict once its budget is spent: a timeout naming the attempts made and
/// the last reason given.
pub open spec fn spec_warmup_exhausted_reason(attempts: u32, last_timeout: Option<String>) -> Seq<char> {
    "DXGI first-frame warmup exhausted 500 ms after "@ + decimal(attempts as nat) + " attempts: "@
        + match last_timeout {
        Some(reason) => reason@,
        None => "no frame became available"@,
    }
}

impl DxgiFirstFrameWarmup {
    pub fn new() -> (r: Self)
        ensures
            r.elapsed_budget_ms == 0 && r.attempts == 0 && r.last_timeout is None,
    {
        Self { elapsed_budget_ms: 0, attempts: 0, last_timeout: None }
    }

    /// The next acquire, with its timeout (never past the budget), or the timeout error
    /// once the budget is spent.
    pub fn next_attempt(&mut self) -> (r: Result<u32, DxgiCaptureError>)
        ensures
            old(self).elapsed_budget_ms < DXGI_FIRST_FRAME_TIMEOUT_BUDGET_MS ==> (r matches Ok(timeout)
                && {
                &&& 1 <= timeout
                &&& old(self).elapsed_budget_ms + timeout <= DXGI_FIRST_FRAME_TIMEOUT_BUDGET_MS
                &&& timeout == (if DXGI_FIRST_FRAME_TIMEOUT_BUDGET_MS - old(self).elapsed_budget_ms
                    <= DXGI_FIRST_FRAME_ATTEMPT_TIMEOUT_MS {
                    DXGI_FIRST_FRAME_TIMEOUT_BUDGET_MS - old(self).elapsed_budget_ms
                } else {
                    DXGI_FIRST_FRAME_ATTEMPT_TIMEOUT_MS as int
                })
                &&& final(self).attempts == (if old(self).attempts == u32::MAX {
                    u32::MAX as int
                } else {
                    old(self).attempts + 1
                })
                &&& final(self).elapsed_budget_ms == old(self).elapsed_budget_ms
                &&& final(self).last_timeout == old(self).last_timeout
            }),
            old(self).elapsed_budget_ms >= DXGI_FIRST_FRAME_TIMEOUT_BUDGET_MS ==> {
                &&& *final(self) == *old(self)
                &&& r matches Err(DxgiCaptureError::FrameTimeout { reason }) && reason@
                    == spec_warmup_exhausted_reason(old(self).attempts, old(self).last_timeout)
            },
    {
        if self.elapsed_budget_ms >= DXGI_FIRST_FRAME_TIMEOUT_BUDGET_MS {
            let mut reason = String::from_str("DXGI first-frame warmup exhausted 500 ms after ");
            push_u64(&mut reason, self.attempts as u64);
            reason.append(" attempts: ");
            match &self.last_timeout {
                Some(last) => reason.append(last.as_str()),
                None => reason.append("no frame became available"),
            }
            return Err(DxgiCaptureError::FrameTimeout { reason });
        }
        self.attempts = if self.attempts == u32::MAX { u32::MAX } else { self.attempts + 1 };
        let remaining = DXGI_FIRST_FRAME_TIMEOUT_BUDGET_MS - self.elapsed_budget_ms;
        let timeout = if remaining <= DXGI_FIRST_FRAME_ATTEMPT_TIMEOUT_MS {
            remaining
        } else {
            DXGI_FIRST_FRAME_ATTEMPT_TIMEOUT_MS
        };
        Ok(timeout)
    }

    /// Takes in what an acquire with `timeout_ms` gave: a frame or any error but a timeout
    /// ends the warmup with that outcome; a timeout spends its time and keeps its reason.
    pub fn after_attempt(&mut self, timeout_ms: u32, outcome: Result<(), DxgiCaptureError>) -> (r: Option<
        Result<(), DxgiCaptureError>,
    >)
        ensures
            match outcome {
                Err(DxgiCaptureError::FrameTimeout { reason }) => {
                    &&& r is None
                    &&& final(self).elapsed_budget_ms == (if old(self).elapsed_budget_ms + timeout_ms
                        > u32::MAX {
                        u32::MAX as int
                    } else {
                        old(self).elapsed_budget_ms + timeout_ms
                    })
                    &&& final(self).attempts == old(self).attempts
                    &&& final(self).last_timeout == Some(reason)
                },
                _ => r == Some(outcome) && *final(self) == *old(self),
            },
    {
        match outcome {
            Err(DxgiCaptureError::FrameTimeout { reason }) => {
                self.elapsed_budget_ms = self.elapsed_budget_ms.saturating_add(timeout_ms);
                self.last_timeout = Some(reason);
                None
            },
            _ => Some(outcome),
        }
    }
}

} // verus!
