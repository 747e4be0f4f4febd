//! Deciding which capture backend serves a screenshot, and why it falls back.
use vstd::prelude::*;

use crate::capture::{CaptureBackendContract, CaptureBackendKind};
use crate::dxgi_capture::{DxgiCaptureReadiness, DxgiDesktopDuplicationContract};
use crate::gpu::{D3d11GpuProbeReport, GpuCaptureBackend, GpuCaptureStatus};
use crate::wgc_contract::{WgcOneFrameProbePlan, WgcOneFrameProbeStatus};

verus! {

/// The backend the caller would like to use.
#[derive(Debug, Clone, Copy, PartialEq, Eq, Structural)]
pub enum CaptureRoutePreference {
    ExistingCpu,
    WindowsGraphicsCapture,
    DesktopDuplication,
}

impl CaptureRoutePreference {
    pub open spec fn spec_backend_kind(self) -> CaptureBackendKind {
        match self {
            CaptureRoutePreference::ExistingCpu => CaptureBackendKind::ExistingCpu,
            CaptureRoutePreference::WindowsGraphicsCapture => CaptureBackendKind::WindowsGraphicsCapture,
            CaptureRoutePreference::DesktopDuplication => CaptureBackendKind::DesktopDuplication,
        }
    }

    pub fn backend_kind(self) -> (r: CaptureBackendKind)
        ensures
            r == self.spec_backend_kind(),
    {
        match self {
            CaptureRoutePreference::ExistingCpu => CaptureBackendKind::ExistingCpu,
            CaptureRoutePreference::WindowsGraphicsCapture => CaptureBackendKind::WindowsGraphicsCapture,
            CaptureRoutePreference::DesktopDuplication => CaptureBackendKind::DesktopDuplication,
        }
    }

    pub fn gpu_backend(self) -> (r: Option<GpuCaptureBackend>)
        ensures
            r == match self {
                CaptureRoutePreference::ExistingCpu => None,
                CaptureRoutePreference::WindowsGraphicsCapture => Some(
                    GpuCaptureBackend::WindowsGraphicsCapture,
                ),
                CaptureRoutePreference::DesktopDuplication => Some(
                    GpuCaptureBackend::DxgiDesktopDuplication,
                ),
            },
    {
        match self {
            CaptureRoutePreference::ExistingCpu => None,
            CaptureRoutePreference::WindowsGraphicsCapture => Some(
                GpuCaptureBackend::WindowsGraphicsCapture,
            ),
            CaptureRoutePreference::DesktopDuplication => Some(
                GpuCaptureBackend::DxgiDesktopDuplication,
            ),
        }
    }
}

impl Default for CaptureRoutePreference {
    fn default() -> (r: Self)
        ensures
            r == CaptureRoutePreference::ExistingCpu,
    {
        CaptureRoutePreference::ExistingCpu
    }
}

/// Why a route fell back to the CPU path (`NoReason` when it did not).
#[derive(Debug, Clone, Copy, PartialEq, Eq, Structural)]
pub enum CaptureRouteFallbackReason {
    NoReason,
    GpuBackendPlaceholder,
    GpuBackendUnavailable,
    D3d11ProbeUnavailable,
    WgcProbeDisabled,
    WgcProbePendingApiWiring,
    WgcProbeRejectedRealApi,
    WgcNativeApiUnavailable,
    WgcFrameAcquisitionContractOnly,
    DxgiCapturePlaceholder,
    DxgiCaptureUnavailable,
    DxgiContractBlocked,
    DxgiFrameAcquisitionContractOnly,
    SelectedBridgeUnavailable,
    SelectedBridgeInvalidImage,
    SelectedBridgeUnsupportedAction,
}

impl CaptureRouteFallbackReason {
    pub open spec fn spec_as_str(self) -> Seq<char> {
        match self {
            CaptureRouteFallbackReason::NoReason => "none"@,
            CaptureRouteFallbackReason::GpuBackendPlaceholder => "gpu-backend-placeholder"@,
            CaptureRouteFallbackReason::GpuBackendUnavailable => "gpu-backend-unavailable"@,
            CaptureRouteFallbackReason::D3d11ProbeUnavailable => "d3d11-probe-unavailable"@,
            CaptureRouteFallbackReason::WgcProbeDisabled => "wgc-probe-disabled"@,
            CaptureRouteFallbackReason::WgcProbePendingApiWiring => "wgc-probe-pending-api-wiring"@,
            CaptureRouteFallbackReason::WgcProbeRejectedRealApi => "wgc-probe-rejected-real-api"@,
            CaptureRouteFallbackReason::WgcNativeApiUnavailable => "wgc-native-api-unavailable"@,
            CaptureRouteFallbackReason::WgcFrameAcquisitionContractOnly =>
                "wgc-frame-acquisition-contract-only"@,
            CaptureRouteFallbackReason::DxgiCapturePlaceholder => "dxgi-capture-placeholder"@,
            CaptureRouteFallbackReason::DxgiCaptureUnavailable => "dxgi-capture-unavailable"@,
            CaptureRouteFallbackReason::DxgiContractBlocked => "dxgi-contract-blocked"@,
            CaptureRouteFallbackReason::DxgiFrameAcquisitionContractOnly =>
                "dxgi-frame-acquisition-contract-only"@,
            CaptureRouteFallbackReason::SelectedBridgeUnavailable => "selected-bridge-unavailable"@,
            CaptureRouteFallbackReason::SelectedBridgeInvalidImage =>
                "selected-bridge-invalid-image"@,
            CaptureRouteFallbackReason::SelectedBridgeUnsupportedAction =>
                "selected-bridge-unsupported-action"@,
        }
    }

    /// Every reason except `NoReason` and the two generic GPU-backend reasons.
    pub open spec fn spec_is_probe_or_bridge_reason(self) -> bool {
        !(self is NoReason || self is GpuBackendPlaceholder || self is GpuBackendUnavailable)
    }

    pub fn as_str(self) -> (r: &'static str)
        ensures
            r@ == self.spec_as_str(),
    {
        match self {
            CaptureRouteFallbackReason::NoReason => "none",
            CaptureRouteFallbackReason::GpuBackendPlaceholder => "gpu-backend-placeholder",
            CaptureRouteFallbackReason::GpuBackendUnavailable => "gpu-backend-unavailable",
            CaptureRouteFallbackReason::D3d11ProbeUnavailable => "d3d11-probe-unavailable",
            CaptureRouteFallbackReason::WgcProbeDisabled => "wgc-probe-disabled",
            CaptureRouteFallbackReason::WgcProbePendingApiWiring => "wgc-probe-pending-api-wiring",
            CaptureRouteFallbackReason::WgcProbeRejectedRealApi => "wgc-probe-rejected-real-api",
            CaptureRouteFallbackReason::WgcNativeApiUnavailable => "wgc-native-api-unavailable",
            CaptureRouteFallbackReason::WgcFrameAcquisitionContractOnly =>
                "wgc-frame-acquisition-contract-only",
            CaptureRouteFallbackReason::DxgiCapturePlaceholder => "dxgi-capture-placeholder",
            CaptureRouteFallbackReason::DxgiCaptureUnavailable => "dxgi-capture-unavailable",
            CaptureRouteFallbackReason::DxgiContractBlocked => "dxgi-contract-blocked",
            CaptureRouteFallbackReason::DxgiFrameAcquisitionContractOnly =>
                "dxgi-frame-acquisition-contract-only",
            CaptureRouteFallbackReason::SelectedBridgeUnavailable => "selected-bridge-unavailable",
            CaptureRouteFallbackReason::SelectedBridgeInvalidImage => "selected-bridge-invalid-image",
            CaptureRouteFallbackReason::SelectedBridgeUnsupportedAction =>
                "selected-bridge-unsupported-action",
        }
    }

    pub fn is_probe_or_bridge_reason(self) -> (r: bool)
        ensures
            r == self.spec_is_probe_or_bridge_reason(),
    {
        match self {
            CaptureRouteFallbackReason::NoReason | CaptureRouteFallbackReason::GpuBackendPlaceholder
            | CaptureRouteFallbackReason::GpuBackendUnavailable => false,
            _ => true,
        }
    }
}

/// Whether the requested backend serves the capture.
#[derive(Debug, Clone, Copy, PartialEq, Eq, Structural)]
pub enum CaptureRouteStatus {
    Ready,
    Fallback,
}

/// The outcome of routing: what was asked for, what serves, and why.
#[derive(Debug, Clone, Copy, PartialEq, Eq, Structural)]
pub struct CaptureRouteDecision {
    pub requested: CaptureBackendKind,
    pub selected: CaptureBackendKind,
    pub status: CaptureRouteStatus,
    pub fallback_reason: CaptureRouteFallbackReason,
    pub contract: CaptureBackendContract,
}

impl CaptureRouteDecision {
    pub open spec fn spec_ready(backend: CaptureBackendKind) -> Self {
        CaptureRouteDecision {
            requested: backend,
            selected: backend,
            status: CaptureRouteStatus::Ready,
            fallback_reason: CaptureRouteFallbackReason::NoReason,
            contract: backend.spec_contract(),
        }
    }

    pub open spec fn spec_fallback(
        requested: CaptureBackendKind,
        reason: CaptureRouteFallbackReason,
    ) -> Self {
        CaptureRouteDecision {
            requested,
            selected: CaptureBackendKind::ExistingCpu,
            status: CaptureRouteStatus::Fallback,
            fallback_reason: reason,
            contract: CaptureBackendContract::spec_cpu(),
        }
    }

    pub fn ready(backend: CaptureBackendKind) -> (r: Self)
        ensures
            r == Self::spec_ready(backend),
    {
        Self {
            requested: backend,
            selected: backend,
            status: CaptureRouteStatus::Ready,
            fallback_reason: CaptureRouteFallbackReason::NoReason,
            contract: backend.contract(),
        }
    }

    pub fn fallback(requested: CaptureBackendKind, reason: CaptureRouteFallbackReason) -> (r: Self)
        ensures
            r == Self::spec_fallback(requested, reason),
    {
        Self {
            requested,
            selected: CaptureBackendKind::ExistingCpu,
            status: CaptureRouteStatus::Fallback,
            fallback_reason: reason,
            contract: CaptureBackendKind::ExistingCpu.contract(),
        }
    }

    pub fn uses_fallback(self) -> (r: bool)
        ensures
            r == (self.status is Fallback),
    {
        match self.status {
            CaptureRouteStatus::Fallback => true,
            CaptureRouteStatus::Ready => false,
        }
    }

    pub fn wgc_probe_fallback(reason: CaptureRouteFallbackReason) -> (r: Self)
        ensures
            r == Self::spec_fallback(CaptureBackendKind::WindowsGraphicsCapture, reason),
    {
        Self::fallback(CaptureBackendKind::WindowsGraphicsCapture, reason)
    }

    pub fn dxgi_capture_fallback(reason: CaptureRouteFallbackReason) -> (r: Self)
        ensures
            r == Self::spec_fallback(CaptureBackendKind::DesktopDuplication, reason),
    {
        Self::fallback(CaptureBackendKind::DesktopDuplication, reason)
    }

    pub fn selected_bridge_fallback(
        requested: CaptureBackendKind,
        reason: CaptureRouteFallbackReason,
    ) -> (r: Self)
        ensures
            r == Self::spec_fallback(requested, reason),
    {
        Self::fallback(requested, reason)
    }
}

/// The preference together with which GPU backends are available.
#[derive(Debug, Clone, Copy, PartialEq, Eq, Structural)]
pub struct CaptureRouteOptions {
    pub preference: CaptureRoutePreference,
    pub wgc_available: bool,
    pub dxgi_available: bool,
}

impl CaptureRouteOptions {
    pub fn existing_cpu() -> (r: Self)
        ensures
            r == (CaptureRouteOptions {
                preference: CaptureRoutePreference::ExistingCpu,
                wgc_available: false,
                dxgi_available: false,
            }),
    {
        Self {
            preference: CaptureRoutePreference::ExistingCpu,
            wgc_available: false,
            dxgi_available: false,
        }
    }

    pub fn prefer_wgc(wgc_available: bool, dxgi_available: bool) -> (r: Self)
        ensures
            r == (CaptureRouteOptions {
                preference: CaptureRoutePreference::WindowsGraphicsCapture,
                wgc_available,
                dxgi_available,
            }),
    {
        Self { preference: CaptureRoutePreference::WindowsGraphicsCapture, wgc_available, dxgi_available }
    }

    pub fn prefer_dxgi(dxgi_available: bool) -> (r: Self)
        ensures
            r == (CaptureRouteOptions {
                preference: CaptureRoutePreference::DesktopDuplication,
                wgc_available: false,
                dxgi_available,
            }),
    {
        Self { preference: CaptureRoutePreference::DesktopDuplication, wgc_available: false, dxgi_available }
    }
}

impl Default for CaptureRouteOptions {
    fn default() -> (r: Self)
        ensures
            r == (CaptureRouteOptions {
                preference: CaptureRoutePreference::ExistingCpu,
                wgc_available: false,
                dxgi_available: false,
            }),
    {
        Self::existing_cpu()
    }
}

/// The preference together with the probes that decide a diagnostics route.
#[derive(Debug, Clone, Copy)]
pub struct CaptureDiagnosticsRouteOptions<'a> {
    pub preference: CaptureRoutePreference,
    pub d3d11_probe: &'a D3d11GpuProbeReport,
    pub wgc_probe: Option<&'a WgcOneFrameProbePlan>,
    pub dxgi_contract: Option<&'a DxgiDesktopDuplicationContract>,
}

impl<'a> CaptureDiagnosticsRouteOptions<'a> {
    pub fn prefer_wgc(
        d3d11_probe: &'a D3d11GpuProbeReport,
        wgc_probe: &'a WgcOneFrameProbePlan,
        dxgi_contract: Option<&'a DxgiDesktopDuplicationContract>,
    ) -> (r: Self)
        ensures
            r.preference == CaptureRoutePreference::WindowsGraphicsCapture,
            r.d3d11_probe == d3d11_probe,
            r.wgc_probe == Some(wgc_probe),
            r.dxgi_contract == dxgi_contract,
    {
        Self {
            preference: CaptureRoutePreference::WindowsGraphicsCapture,
            d3d11_probe,
            wgc_probe: Some(wgc_probe),
            dxgi_contract,
        }
    }

    pub fn prefer_dxgi(
        d3d11_probe: &'a D3d11GpuProbeReport,
        dxgi_contract: &'a DxgiDesktopDuplicationContract,
    ) -> (r: Self)
        ensures
            r.preference == CaptureRoutePreference::DesktopDuplication,
            r.d3d11_probe == d3d11_probe,
            r.wgc_probe is None,
            r.dxgi_contract == Some(dxgi_contract),
    {
        Self {
            preference: CaptureRoutePreference::DesktopDuplication,
            d3d11_probe,
            wgc_probe: None,
            dxgi_contract: Some(dxgi_contract),
        }
    }
}

/// The route of a plain routing request: the CPU path is ready; a GPU preference falls
/// back, as a placeholder when some GPU backend is available and as unavailable otherwise.
pub open spec fn spec_resolve_capture_route(options: CaptureRouteOptions) -> CaptureRouteDecision {
    match options.preference {
        CaptureRoutePreference::ExistingCpu => CaptureRouteDecision::spec_ready(
            CaptureBackendKind::ExistingCpu,
        ),
        CaptureRoutePreference::WindowsGraphicsCapture => if options.wgc_available {
            CaptureRouteDecision::spec_fallback(
                CaptureBackendKind::WindowsGraphicsCapture,
                CaptureRouteFallbackReason::GpuBackendPlaceholder,
            )
        } else if options.dxgi_available {
            CaptureRouteDecision::spec_fallback(
                CaptureBackendKind::DesktopDuplication,
                CaptureRouteFallbackReason::GpuBackendPlaceholder,
            )
        } else {
            CaptureRouteDecision::spec_fallback(
                CaptureBackendKind::WindowsGraphicsCapture,
                CaptureRouteFallbackReason::GpuBackendUnavailable,
            )
        },
        CaptureRoutePreference::DesktopDuplication => if options.dxgi_available {
            CaptureRouteDecision::spec_fallback(
                CaptureBackendKind::DesktopDuplication,
                CaptureRouteFallbackReason::GpuBackendPlaceholder,
            )
        } else {
            CaptureRouteDecision::spec_fallback(
                CaptureBackendKind::DesktopDuplication,
                CaptureRouteFallbackReason::GpuBackendUnavailable,
            )
        },
    }
}

/// The D3D11 probe reports a ready capture device.
pub open spec fn d3d11_ready(report: D3d11GpuProbeReport) -> bool {
    report.capability.status is Ready
}

/// The DXGI diagnostics route: always a DXGI fallback, for the first reason that applies.
pub open spec fn spec_dxgi_diagnostics_route(
    d3d11: D3d11GpuProbeReport,
    dxgi: Option<DxgiCaptureReadiness>,
) -> CaptureRouteDecision {
    CaptureRouteDecision::spec_fallback(
        CaptureBackendKind::DesktopDuplication,
        match dxgi {
            None => CaptureRouteFallbackReason::DxgiCaptureUnavailable,
            Some(readiness) => if !d3d11_ready(d3d11) {
                CaptureRouteFallbackReason::D3d11ProbeUnavailable
            } else {
                match readiness {
                    DxgiCaptureReadiness::Ready =>
                        CaptureRouteFallbackReason::DxgiFrameAcquisitionContractOnly,
                    DxgiCaptureReadiness::PlaceholderOnly =>
                        CaptureRouteFallbackReason::DxgiCapturePlaceholder,
                    DxgiCaptureReadiness::Blocked => CaptureRouteFallbackReason::DxgiContractBlocked,
                }
            },
        },
    )
}

/// The fallback reason that a WGC plan status stands for.
pub open spec fn spec_wgc_fallback_reason(status: WgcOneFrameProbeStatus) -> CaptureRouteFallbackReason {
    match status {
        WgcOneFrameProbeStatus::Disabled => CaptureRouteFallbackReason::WgcProbeDisabled,
        WgcOneFrameProbeStatus::GuardedDiagnosticsReady =>
            CaptureRouteFallbackReason::WgcProbePendingApiWiring,
        WgcOneFrameProbeStatus::FallbackPlanned => CaptureRouteFallbackReason::WgcNativeApiUnavailable,
        WgcOneFrameProbeStatus::InvalidRequest => CaptureRouteFallbackReason::WgcProbeRejectedRealApi,
        WgcOneFrameProbeStatus::ProbeReady =>
            CaptureRouteFallbackReason::WgcFrameAcquisitionContractOnly,
    }
}

/// The WGC diagnostics route: always a WGC fallback (the DXGI route it consults never
/// becomes ready).
pub open spec fn spec_wgc_diagnostics_route(
    d3d11: D3d11GpuProbeReport,
    wgc: Option<WgcOneFrameProbeStatus>,
) -> CaptureRouteDecision {
    CaptureRouteDecision::spec_fallback(
        CaptureBackendKind::WindowsGraphicsCapture,
        match wgc {
            None => CaptureRouteFallbackReason::WgcProbePendingApiWiring,
            Some(status) => if status is ProbeReady {
                if d3d11_ready(d3d11) {
                    CaptureRouteFallbackReason::WgcFrameAcquisitionContractOnly
                } else {
                    CaptureRouteFallbackReason::D3d11ProbeUnavailable
                }
            } else {
                spec_wgc_fallback_reason(status)
            },
        },
    )
}

pub fn default_capture_route_decision() -> (r: CaptureRouteDecision)
    ensures
        r == CaptureRouteDecision::spec_ready(CaptureBackendKind::ExistingCpu),
{
    resolve_capture_route(CaptureRouteOptions::existing_cpu())
}

pub fn resolve_capture_route(options: CaptureRouteOptions) -> (r: CaptureRouteDecision)
    ensures
        r == spec_resolve_capture_route(options),
{
    match options.preference {
        CaptureRoutePreference::ExistingCpu => CaptureRouteDecision::ready(
            CaptureBackendKind::ExistingCpu,
        ),
        CaptureRoutePreference::WindowsGraphicsCapture => {
            if options.wgc_available {
                CaptureRouteDecision::fallback(
                    CaptureBackendKind::WindowsGraphicsCapture,
                    CaptureRouteFallbackReason::GpuBackendPlaceholder,
                )
            } else if options.dxgi_available {
                CaptureRouteDecision::fallback(
                    CaptureBackendKind::DesktopDuplication,
                    CaptureRouteFallbackReason::GpuBackendPlaceholder,
                )
            } else {
                CaptureRouteDecision::fallback(
                    CaptureBackendKind::WindowsGraphicsCapture,
                    CaptureRouteFallbackReason::GpuBackendUnavailable,
                )
            }
        },
        CaptureRoutePreference::DesktopDuplication => {
            if options.dxgi_available {
                CaptureRouteDecision::fallback(
                    CaptureBackendKind::DesktopDuplication,
                    CaptureRouteFallbackReason::GpuBackendPlaceholder,
                )
            } else {
                CaptureRouteDecision::fallback(
                    CaptureBackendKind::DesktopDuplication,
                    CaptureRouteFallbackReason::GpuBackendUnavailable,
                )
            }
        },
    }
}

pub fn resolve_diagnostics_capture_route(options: CaptureDiagnosticsRouteOptions<'_>) -> (r:
    CaptureRouteDecision)
    ensures
        r == match options.preference {
            CaptureRoutePreference::ExistingCpu => CaptureRouteDecision::spec_ready(
                CaptureBackendKind::ExistingCpu,
            ),
            CaptureRoutePreference::WindowsGraphicsCapture => spec_wgc_diagnostics_route(
                *options.d3d11_probe,
                match options.wgc_probe {
                    Some(plan) => Some(plan.status),
                    None => None,
                },
            ),
            CaptureRoutePreference::DesktopDuplication => spec_dxgi_diagnostics_route(
                *options.d3d11_probe,
                match options.dxgi_contract {
                    Some(contract) => Some(contract.readiness),
                    None => None,
                },
            ),
        },
{
    match options.preference {
        CaptureRoutePreference::ExistingCpu => CaptureRouteDecision::ready(
            CaptureBackendKind::ExistingCpu,
        ),
        CaptureRoutePreference::WindowsGraphicsCapture => resolve_wgc_diagnostics_route(
            options.d3d11_probe,
            options.wgc_probe,
            options.dxgi_contract,
        ),
        CaptureRoutePreference::DesktopDuplication => resolve_dxgi_diagnostics_route(
            options.d3d11_probe,
            options.dxgi_contract,
        ),
    }
}

fn d3d11_is_capture_ready(report: &D3d11GpuProbeReport) -> (r: bool)
    ensures
        r == d3d11_ready(*report),
{
    match report.capability.status {
        GpuCaptureStatus::Ready => true,
        _ => false,
    }
}

fn resolve_wgc_diagnostics_route(
    d3d11_probe: &D3d11GpuProbeReport,
    wgc_probe: Option<&WgcOneFrameProbePlan>,
    dxgi_contract: Option<&DxgiDesktopDuplicationContract>,
) -> (r: CaptureRouteDecision)
    ensures
        r == spec_wgc_diagnostics_route(
            *d3d11_probe,
            match wgc_probe {
                Some(plan) => Some(plan.status),
                None => None,
            },
        ),
{
    let wgc_probe = match wgc_probe {
        Some(plan) => plan,
        None => {
            return CaptureRouteDecision::wgc_probe_fallback(
                CaptureRouteFallbackReason::WgcProbePendingApiWiring,
            );
        },
    };
    match wgc_probe.status {
        WgcOneFrameProbeStatus::ProbeReady => {
            let reason = if d3d11_is_capture_ready(d3d11_probe) {
                CaptureRouteFallbackReason::WgcFrameAcquisitionContractOnly
            } else {
                CaptureRouteFallbackReason::D3d11ProbeUnavailable
            };
            return CaptureRouteDecision::wgc_probe_fallback(reason);
        },
        _ => {},
    }
    match dxgi_contract {
        Some(contract) => {
            let dxgi_decision = resolve_dxgi_diagnostics_route(d3d11_probe, Some(contract));
            if !dxgi_decision.uses_fallback() {
                return dxgi_decision;
            }
        },
        None => {},
    }
    CaptureRouteDecision::wgc_probe_fallback(wgc_fallback_reason(wgc_probe))
}

fn resolve_dxgi_diagnostics_route(
    d3d11_probe: &D3d11GpuProbeReport,
    dxgi_contract: Option<&DxgiDesktopDuplicationContract>,
) -> (r: CaptureRouteDecision)
    ensures
        r == spec_dxgi_diagnostics_route(
            *d3d11_probe,
            match dxgi_contract {
                Some(contract) => Some(contract.readiness),
                None => None,
            },
        ),
{
    let dxgi_contract = match dxgi_contract {
        Some(contract) => contract,
        None => {
            return CaptureRouteDecision::dxgi_capture_fallback(
                CaptureRouteFallbackReason::DxgiCaptureUnavailable,
            );
        },
    };
    if !d3d11_is_capture_ready(d3d11_probe) {
        return CaptureRouteDecision::dxgi_capture_fallback(
            CaptureRouteFallbackReason::D3d11ProbeUnavailable,
        );
    }
    match dxgi_contract.readiness {
        DxgiCaptureReadiness::Ready => CaptureRouteDecision::dxgi_capture_fallback(
            CaptureRouteFallbackReason::DxgiFrameAcquisitionContractOnly,
        ),
        DxgiCaptureReadiness::PlaceholderOnly => CaptureRouteDecision::dxgi_capture_fallback(
            CaptureRouteFallbackReason::DxgiCapturePlaceholder,
        ),
        DxgiCaptureReadiness::Blocked => CaptureRouteDecision::dxgi_capture_fallback(
            CaptureRouteFallbackReason::DxgiContractBlocked,
        ),
    }
}

fn wgc_fallback_reason(plan: &WgcOneFrameProbePlan) -> (r: CaptureRouteFallbackReason)
    ensures
        r == spec_wgc_fallback_reason(plan.status),
{
    match plan.status {
        WgcOneFrameProbeStatus::Disabled => CaptureRouteFallbackReason::WgcProbeDisabled,
        WgcOneFrameProbeStatus::GuardedDiagnosticsReady =>
            CaptureRouteFallbackReason::WgcProbePendingApiWiring,
        WgcOneFrameProbeStatus::FallbackPlanned => CaptureRouteFallbackReason::WgcNativeApiUnavailable,
        WgcOneFrameProbeStatus::InvalidRequest => CaptureRouteFallbackReason::WgcProbeRejectedRealApi,
        WgcOneFrameProbeStatus::ProbeReady =>
            CaptureRouteFallbackReason::WgcFrameAcquisitionContractOnly,
    }
}

/// Every route is served by the CPU path: a ready route is the CPU path itself, and every
/// other route is a fallback to it, carrying a reason and the CPU contract.
pub proof fn routes_are_served_by_cpu(options: CaptureRouteOptions)
    ensures
        spec_resolve_capture_route(options).selected == CaptureBackendKind::ExistingCpu,
        spec_resolve_capture_route(options).contract == CaptureBackendContract::spec_cpu(),
        spec_resolve_capture_route(options).status is Ready <==> options.preference is ExistingCpu,
        spec_resolve_capture_route(options).status is Fallback ==> !(spec_resolve_capture_route(
            options,
        ).fallback_reason is NoReason),
{
}

/// Diagnostics routes for a GPU preference always fall back to the CPU path with a probe
/// reason, whatever the probes say.
pub proof fn diagnostics_routes_fall_back_with_probe_reason(
    d3d11: D3d11GpuProbeReport,
    wgc: Option<WgcOneFrameProbeStatus>,
    dxgi: Option<DxgiCaptureReadiness>,
)
    ensures
        spec_wgc_diagnostics_route(d3d11, wgc).status is Fallback,
        spec_wgc_diagnostics_route(d3d11, wgc).selected == CaptureBackendKind::ExistingCpu,
        spec_wgc_diagnostics_route(d3d11, wgc).fallback_reason.spec_is_probe_or_bridge_reason(),
        spec_dxgi_diagnostics_route(d3d11, dxgi).status is Fallback,
        spec_dxgi_diagnostics_route(d3d11, dxgi).selected == CaptureBackendKind::ExistingCpu,
        spec_dxgi_diagnostics_route(d3d11, dxgi).fallback_reason.spec_is_probe_or_bridge_reason(),
{
}

} // verus!
