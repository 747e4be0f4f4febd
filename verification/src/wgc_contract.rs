//! The guarded one-frame Windows Graphics Capture probe: its contract and plan.
use vstd::prelude::*;

use crate::text::{decimal, push_u64};

verus! {

/// The probe's default: it is never on unless asked for.
#[derive(Debug, Clone, Copy, PartialEq, Eq, Structural)]
pub enum WgcOneFrameProbeDefault {
    Disabled,
}

impl WgcOneFrameProbeDefault {
    pub fn is_enabled(self) -> (r: bool)
        ensures
            !r,
    {
        false
    }
}

/// Where the probe plan ended up.
#[derive(Debug, Clone, Copy, PartialEq, Eq, Structural)]
pub enum WgcOneFrameProbeStatus {
    Disabled,
    FallbackPlanned,
    ProbeReady,
    GuardedDiagnosticsReady,
    InvalidRequest,
}

/// The outcome reported by the one-frame smoke run.
#[derive(Debug, Clone, Copy, PartialEq, Eq, Structural)]
pub enum WgcOneFrameSmokeStatus {
    NotRun,
    ReadinessOnly,
    ReadyToAttempt,
    FallbackRequired,
    InvalidRequest,
}

impl WgcOneFrameSmokeStatus {
    pub open spec fn spec_as_str(self) -> Seq<char> {
        match self {
            WgcOneFrameSmokeStatus::NotRun => "not-run"@,
            WgcOneFrameSmokeStatus::ReadinessOnly => "readiness-only"@,
            WgcOneFrameSmokeStatus::ReadyToAttempt => "ready-to-attempt"@,
            WgcOneFrameSmokeStatus::FallbackRequired => "fallback-required"@,
            WgcOneFrameSmokeStatus::InvalidRequest => "invalid-request"@,
        }
    }

    pub fn as_str(self) -> (r: &'static str)
        ensures
            r@ == self.spec_as_str(),
    {
        match self {
            WgcOneFrameSmokeStatus::NotRun => "not-run",
            WgcOneFrameSmokeStatus::ReadinessOnly => "readiness-only",
            WgcOneFrameSmokeStatus::ReadyToAttempt => "ready-to-attempt",
            WgcOneFrameSmokeStatus::FallbackRequired => "fallback-required",
            WgcOneFrameSmokeStatus::InvalidRequest => "invalid-request",
        }
    }
}

/// The three stages of bringing up a capture.
#[derive(Debug, Clone, Copy, PartialEq, Eq, Structural)]
pub enum WgcContractStage {
    Device,
    FramePool,
    Session,
}

impl WgcContractStage {
    pub open spec fn spec_as_str(self) -> Seq<char> {
        match self {
            WgcContractStage::Device => "device"@,
            WgcContractStage::FramePool => "framepool"@,
            WgcContractStage::Session => "session"@,
        }
    }

    pub fn as_str(self) -> (r: &'static str)
        ensures
            r@ == self.spec_as_str(),
    {
        match self {
            WgcContractStage::Device => "device",
            WgcContractStage::FramePool => "framepool",
            WgcContractStage::Session => "session",
        }
    }
}

/// One thing the capture needs before a frame can be read back.
#[derive(Debug, Clone, Copy, PartialEq, Eq, Structural)]
pub enum WgcContractRequirement {
    WindowsGraphicsCaptureApi,
    D3d11Device,
    Bgra8TextureFormat,
    CpuReadbackTexture,
    CaptureItemConsent,
    FramePoolCreated,
    SessionCreated,
}

impl WgcContractRequirement {
    pub open spec fn spec_stage(self) -> WgcContractStage {
        match self {
            WgcContractRequirement::WindowsGraphicsCaptureApi | WgcContractRequirement::D3d11Device
            | WgcContractRequirement::Bgra8TextureFormat
            | WgcContractRequirement::CpuReadbackTexture => WgcContractStage::Device,
            WgcContractRequirement::FramePoolCreated => WgcContractStage::FramePool,
            WgcContractRequirement::CaptureItemConsent | WgcContractRequirement::SessionCreated =>
                WgcContractStage::Session,
        }
    }

    /// The variant name, as a derived `Debug` prints it.
    pub open spec fn spec_debug_name(self) -> Seq<char> {
        match self {
            WgcContractRequirement::WindowsGraphicsCaptureApi => "WindowsGraphicsCaptureApi"@,
            WgcContractRequirement::D3d11Device => "D3d11Device"@,
            WgcContractRequirement::Bgra8TextureFormat => "Bgra8TextureFormat"@,
            WgcContractRequirement::CpuReadbackTexture => "CpuReadbackTexture"@,
            WgcContractRequirement::CaptureItemConsent => "CaptureItemConsent"@,
            WgcContractRequirement::FramePoolCreated => "FramePoolCreated"@,
            WgcContractRequirement::SessionCreated => "SessionCreated"@,
        }
    }

    pub fn stage(self) -> (r: WgcContractStage)
        ensures
            r == self.spec_stage(),
    {
        match self {
            WgcContractRequirement::WindowsGraphicsCaptureApi | WgcContractRequirement::D3d11Device
            | WgcContractRequirement::Bgra8TextureFormat
            | WgcContractRequirement::CpuReadbackTexture => WgcContractStage::Device,
            WgcContractRequirement::FramePoolCreated => WgcContractStage::FramePool,
            WgcContractRequirement::CaptureItemConsent | WgcContractRequirement::SessionCreated =>
                WgcContractStage::Session,
        }
    }

    pub fn debug_name(self) -> (r: &'static str)
        ensures
            r@ == self.spec_debug_name(),
    {
        match self {
            WgcContractRequirement::WindowsGraphicsCaptureApi => "WindowsGraphicsCaptureApi",
            WgcContractRequirement::D3d11Device => "D3d11Device",
            WgcContractRequirement::Bgra8TextureFormat => "Bgra8TextureFormat",
            WgcContractRequirement::CpuReadbackTexture => "CpuReadbackTexture",
            WgcContractRequirement::CaptureItemConsent => "CaptureItemConsent",
            WgcContractRequirement::FramePoolCreated => "FramePoolCreated",
            WgcContractRequirement::SessionCreated => "SessionCreated",
        }
    }
}

/// What takes over when the probe does not run.
#[derive(Debug, Clone, Copy, PartialEq, Eq, Structural)]
pub enum WgcOneFrameProbeFallback {
    ExistingScreenshotPath,
    DesktopDuplicationPlaceholder,
    Unavailable,
}

/// Why the probe was refused or could not proceed.
#[derive(Debug, Clone, PartialEq, Eq)]
pub enum WgcOneFrameProbeError {
    DefaultEnableRejected,
    RealApiCallRejected,
    InvalidFrameTimeoutMs { timeout_ms: u64 },
    ContractNotReady { requirement: WgcContractRequirement },
    NativeApiUnavailable { reason: String },
}

impl WgcOneFrameProbeError {
    pub open spec fn spec_code(&self) -> Seq<char> {
        match self {
            WgcOneFrameProbeError::DefaultEnableRejected => "wgc-probe-default-enable-rejected"@,
            WgcOneFrameProbeError::RealApiCallRejected => "wgc-real-api-call-rejected"@,
            WgcOneFrameProbeError::InvalidFrameTimeoutMs { .. } => "wgc-probe-invalid-timeout"@,
            WgcOneFrameProbeError::ContractNotReady { .. } => "wgc-contract-not-ready"@,
            WgcOneFrameProbeError::NativeApiUnavailable { .. } => "wgc-native-api-unavailable"@,
        }
    }

    pub open spec fn spec_message(&self) -> Seq<char> {
        match self {
            WgcOneFrameProbeError::DefaultEnableRejected =>
                "WGC one-frame probe must remain disabled by default"@,
            WgcOneFrameProbeError::RealApiCallRejected =>
                "WGC one-frame probe placeholder is not allowed to call real WGC APIs"@,
            WgcOneFrameProbeError::InvalidFrameTimeoutMs { timeout_ms } =>
                "invalid WGC one-frame probe timeout: "@ + decimal(*timeout_ms as nat) + "ms"@,
            WgcOneFrameProbeError::ContractNotReady { requirement } =>
                "WGC one-frame probe contract is not ready: "@ + requirement.spec_debug_name()
                    + " ("@ + requirement.spec_stage().spec_as_str() + ")"@,
            WgcOneFrameProbeError::NativeApiUnavailable { reason } =>
                "WGC one-frame probe native API is unavailable: "@ + reason@,
        }
    }

    pub fn code(&self) -> (r: &'static str)
        ensures
            r@ == self.spec_code(),
    {
        match self {
            WgcOneFrameProbeError::DefaultEnableRejected => "wgc-probe-default-enable-rejected",
            WgcOneFrameProbeError::RealApiCallRejected => "wgc-real-api-call-rejected",
            WgcOneFrameProbeError::InvalidFrameTimeoutMs { .. } => "wgc-probe-invalid-timeout",
            WgcOneFrameProbeError::ContractNotReady { .. } => "wgc-contract-not-ready",
            WgcOneFrameProbeError::NativeApiUnavailable { .. } => "wgc-native-api-unavailable",
        }
    }

    pub fn to_string(&self) -> (r: String)
        ensures
            r@ == self.spec_message(),
    {
        let mut s = String::new();
        match self {
            WgcOneFrameProbeError::DefaultEnableRejected => {
                s.append("WGC one-frame probe must remain disabled by default");
            },
            WgcOneFrameProbeError::RealApiCallRejected => {
                s.append("WGC one-frame probe placeholder is not allowed to call real WGC APIs");
            },
            WgcOneFrameProbeError::InvalidFrameTimeoutMs { timeout_ms } => {
                s.append("invalid WGC one-frame probe timeout: ");
                push_u64(&mut s, *timeout_ms);
                s.append("ms");
            },
            WgcOneFrameProbeError::ContractNotReady { requirement } => {
                s.append("WGC one-frame probe contract is not ready: ");
                s.append(requirement.debug_name());
                s.append(" (");
                s.append(requirement.stage().as_str());
                s.append(")");
            },
            WgcOneFrameProbeError::NativeApiUnavailable { reason } => {
                s.append("WGC one-frame probe native API is unavailable: ");
                s.append(reason.as_str());
            },
        }
        proof {
            assert(s@ =~= self.spec_message());
        }
        s
    }

    /// A copy of the error with every field equal.
    pub fn duplicate(&self) -> (r: Self)
        ensures
            r == *self,
    {
        match self {
            WgcOneFrameProbeError::DefaultEnableRejected => WgcOneFrameProbeError::DefaultEnableRejected,
            WgcOneFrameProbeError::RealApiCallRejected => WgcOneFrameProbeError::RealApiCallRejected,
            WgcOneFrameProbeError::InvalidFrameTimeoutMs { timeout_ms } => {
                WgcOneFrameProbeError::InvalidFrameTimeoutMs { timeout_ms: *timeout_ms }
            },
            WgcOneFrameProbeError::ContractNotReady { requirement } => {
                WgcOneFrameProbeError::ContractNotReady { requirement: *requirement }
            },
            WgcOneFrameProbeError::NativeApiUnavailable { reason } => {
                WgcOneFrameProbeError::NativeApiUnavailable { reason: reason.clone() }
            },
        }
    }
}

/// Whether the platform offers Windows Graphics Capture.
#[derive(Debug, Clone, PartialEq, Eq)]
pub struct WgcNativeApiProbe {
    pub is_windows: bool,
    pub is_supported: bool,
    pub reason: Option<String>,
}

impl WgcNativeApiProbe {
    pub fn supported() -> (r: Self)
        ensures
            r.is_windows && r.is_supported && r.reason is None,
    {
        Self { is_windows: true, is_supported: true, reason: None }
    }

    pub fn unavailable(is_windows: bool, reason: String) -> (r: Self)
        ensures
            r.is_windows == is_windows,
            !r.is_supported,
            r.reason == Some(reason),
    {
        Self { is_windows, is_supported: false, reason: Some(reason) }
    }

    /// The error naming the probe's reason, or a stock reason when it gave none.
    pub fn fallback_error(&self) -> (r: WgcOneFrameProbeError)
        ensures
            r matches WgcOneFrameProbeError::NativeApiUnavailable { reason } && reason@ == match self.reason {
                Some(given) => given@,
                None => "Windows Graphics Capture support probe returned false"@,
            },
    {
        let reason = match &self.reason {
            Some(given) => given.clone(),
            None => String::from_str("Windows Graphics Capture support probe returned false"),
        };
        WgcOneFrameProbeError::NativeApiUnavailable { reason }
    }

    pub fn duplicate(&self) -> (r: Self)
        ensures
            r == *self,
    {
        let reason = match &self.reason {
            Some(given) => Some(given.clone()),
            None => None,
        };
        Self { is_windows: self.is_windows, is_supported: self.is_supported, reason }
    }
}

/// `seq![item]` when `flag` holds, else empty.
pub open spec fn when(flag: bool, item: WgcContractRequirement) -> Seq<WgcContractRequirement> {
    if flag {
        seq![item]
    } else {
        Seq::empty()
    }
}

/// The device-stage requirements.
#[derive(Debug, Clone, Copy, PartialEq, Eq, Structural)]
pub struct WgcDeviceContract {
    pub requires_wgc_api: bool,
    pub requires_d3d11_device: bool,
    pub requires_bgra8_format: bool,
    pub requires_cpu_readback: bool,
}

impl WgcDeviceContract {
    /// The required items, in declaration order.
    pub open spec fn spec_missing_requirements(self) -> Seq<WgcContractRequirement> {
        when(self.requires_wgc_api, WgcContractRequirement::WindowsGraphicsCaptureApi) + when(
            self.requires_d3d11_device,
            WgcContractRequirement::D3d11Device,
        ) + when(self.requires_bgra8_format, WgcContractRequirement::Bgra8TextureFormat) + when(
            self.requires_cpu_readback,
            WgcContractRequirement::CpuReadbackTexture,
        )
    }

    pub fn one_frame_readback() -> (r: Self)
        ensures
            r == (WgcDeviceContract {
                requires_wgc_api: true,
                requires_d3d11_device: true,
                requires_bgra8_format: true,
                requires_cpu_readback: true,
            }),
    {
        Self {
            requires_wgc_api: true,
            requires_d3d11_device: true,
            requires_bgra8_format: true,
            requires_cpu_readback: true,
        }
    }

    pub fn missing_requirements(self) -> (r: Vec<WgcContractRequirement>)
        ensures
            r@ == self.spec_missing_requirements(),
    {
        let mut r: Vec<WgcContractRequirement> = Vec::new();
        if self.requires_wgc_api {
            r.push(WgcContractRequirement::WindowsGraphicsCaptureApi);
        }
        if self.requires_d3d11_device {
            r.push(WgcContractRequirement::D3d11Device);
        }
        if self.requires_bgra8_format {
            r.push(WgcContractRequirement::Bgra8TextureFormat);
        }
        if self.requires_cpu_readback {
            r.push(WgcContractRequirement::CpuReadbackTexture);
        }
        proof {
            assert(r@ =~= self.spec_missing_requirements());
        }
        r
    }
}

/// The frame-pool stage of the contract.
#[derive(Debug, Clone, Copy, PartialEq, Eq, Structural)]
pub struct WgcFramePoolContract {
    pub buffer_count: u32,
    pub frame_timeout_ms: u64,
    pub recreates_on_size_change: bool,
}

impl WgcFramePoolContract {
    pub fn one_frame(frame_timeout_ms: u64) -> (r: Self)
        ensures
            r == (WgcFramePoolContract {
                buffer_count: 1,
                frame_timeout_ms,
                recreates_on_size_change: true,
            }),
    {
        Self { buffer_count: 1, frame_timeout_ms, recreates_on_size_change: true }
    }

    pub fn missing_requirements(self) -> (r: Vec<WgcContractRequirement>)
        ensures
            r@ == seq![WgcContractRequirement::FramePoolCreated],
    {
        let r = vec![WgcContractRequirement::FramePoolCreated];
        proof {
            assert(r@ =~= seq![WgcContractRequirement::FramePoolCreated]);
        }
        r
    }
}

/// The session stage of the contract.
#[derive(Debug, Clone, Copy, PartialEq, Eq, Structural)]
pub struct WgcSessionContract {
    pub requires_user_consent: bool,
    pub cursor_capture_enabled: bool,
    pub border_required: bool,
}

impl WgcSessionContract {
    pub fn one_frame() -> (r: Self)
        ensures
            r == (WgcSessionContract {
                requires_user_consent: true,
                cursor_capture_enabled: false,
                border_required: false,
            }),
    {
        Self { requires_user_consent: true, cursor_capture_enabled: false, border_required: false }
    }

    pub fn missing_requirements(self) -> (r: Vec<WgcContractRequirement>)
        ensures
            r@ == seq![
                WgcContractRequirement::CaptureItemConsent,
                WgcContractRequirement::SessionCreated,
            ],
    {
        let r = vec![
            WgcContractRequirement::CaptureItemConsent,
            WgcContractRequirement::SessionCreated,
        ];
        proof {
            assert(r@ =~= seq![
                WgcContractRequirement::CaptureItemConsent,
                WgcContractRequirement::SessionCreated,
            ]);
        }
        r
    }
}

/// The whole guarded one-frame contract.
#[derive(Debug, Clone, Copy, PartialEq, Eq, Structural)]
pub struct WgcOneFrameProbeContract {
    pub default: WgcOneFrameProbeDefault,
    pub requires_explicit_opt_in: bool,
    pub may_call_real_wgc_api: bool,
    pub device: WgcDeviceContract,
    pub framepool: WgcFramePoolContract,
    pub session: WgcSessionContract,
}

impl WgcOneFrameProbeContract {
    pub open spec fn spec_guarded_one_frame(frame_timeout_ms: u64) -> Self {
        WgcOneFrameProbeContract {
            default: WgcOneFrameProbeDefault::Disabled,
            requires_explicit_opt_in: true,
            may_call_real_wgc_api: false,
            device: WgcDeviceContract {
                requires_wgc_api: true,
                requires_d3d11_device: true,
                requires_bgra8_format: true,
                requires_cpu_readback: true,
            },
            framepool: WgcFramePoolContract {
                buffer_count: 1,
                frame_timeout_ms,
                recreates_on_size_change: true,
            },
            session: WgcSessionContract {
                requires_user_consent: true,
                cursor_capture_enabled: false,
                border_required: false,
            },
        }
    }

    pub open spec fn spec_validates_no_default_enable(self) -> bool {
        self.requires_explicit_opt_in && !self.may_call_real_wgc_api
    }

    /// The API requirement when the platform lacks it, then the other device
    /// requirements, then the frame-pool and session requirements.
    pub open spec fn spec_missing_requirements(self, api_supported: bool) -> Seq<
        WgcContractRequirement,
    > {
        when(!api_supported, WgcContractRequirement::WindowsGraphicsCaptureApi) + when(
            self.device.requires_d3d11_device,
            WgcContractRequirement::D3d11Device,
        ) + when(self.device.requires_bgra8_format, WgcContractRequirement::Bgra8TextureFormat)
            + when(self.device.requires_cpu_readback, WgcContractRequirement::CpuReadbackTexture)
            + seq![
            WgcContractRequirement::FramePoolCreated,
            WgcContractRequirement::CaptureItemConsent,
            WgcContractRequirement::SessionCreated,
        ]
    }

    pub fn guarded_one_frame(frame_timeout_ms: u64) -> (r: Self)
        ensures
            r == Self::spec_guarded_one_frame(frame_timeout_ms),
    {
        Self {
            default: WgcOneFrameProbeDefault::Disabled,
            requires_explicit_opt_in: true,
            may_call_real_wgc_api: false,
            device: WgcDeviceContract::one_frame_readback(),
            framepool: WgcFramePoolContract::one_frame(frame_timeout_ms),
            session: WgcSessionContract::one_frame(),
        }
    }

    pub fn validates_no_default_enable(self) -> (r: bool)
        ensures
            r == self.spec_validates_no_default_enable(),
    {
        !self.default.is_enabled() && self.requires_explicit_opt_in && !self.may_call_real_wgc_api
    }

    pub fn missing_requirements(self, api_probe: &WgcNativeApiProbe) -> (r: Vec<
        WgcContractRequirement,
    >)
        ensures
            r@ == self.spec_missing_requirements(api_probe.is_supported),
    {
        let mut requirements: Vec<WgcContractRequirement> = Vec::new();
        if !api_probe.is_supported {
            requirements.push(WgcContractRequirement::WindowsGraphicsCaptureApi);
        }
        if self.device.requires_d3d11_device {
            requirements.push(WgcContractRequirement::D3d11Device);
        }
        if self.device.requires_bgra8_format {
            requirements.push(WgcContractRequirement::Bgra8TextureFormat);
        }
        if self.device.requires_cpu_readback {
            requirements.push(WgcContractRequirement::CpuReadbackTexture);
        }
        let framepool = self.framepool.missing_requirements();
        requirements.push(framepool[0]);
        let session = self.session.missing_requirements();
        requirements.push(session[0]);
        requirements.push(session[1]);
        proof {
            assert(requirements@ =~= self.spec_missing_requirements(api_probe.is_supported));
        }
        requirements
    }
}

/// What the caller asked the probe to do.
#[derive(Debug, Clone, Copy, PartialEq, Eq, Structural)]
pub struct WgcOneFrameProbeRequest {
    pub explicit_opt_in: bool,
    pub allow_real_wgc_api: bool,
    pub frame_timeout_ms: u64,
}

impl WgcOneFrameProbeRequest {
    pub fn disabled() -> (r: Self)
        ensures
            r == (WgcOneFrameProbeRequest {
                explicit_opt_in: false,
                allow_real_wgc_api: false,
                frame_timeout_ms: 0,
            }),
    {
        Self { explicit_opt_in: false, allow_real_wgc_api: false, frame_timeout_ms: 0 }
    }

    pub fn explicit_placeholder(frame_timeout_ms: u64) -> (r: Self)
        ensures
            r == (WgcOneFrameProbeRequest {
                explicit_opt_in: true,
                allow_real_wgc_api: false,
                frame_timeout_ms,
            }),
    {
        Self { explicit_opt_in: true, allow_real_wgc_api: false, frame_timeout_ms }
    }
}

/// The requirements still missing and the stage the first of them belongs to.
#[derive(Debug, Clone, PartialEq, Eq)]
pub struct WgcOneFrameProbeDiagnostics {
    pub api_probe: WgcNativeApiProbe,
    pub missing_requirements: Vec<WgcContractRequirement>,
    pub next_stage: Option<WgcContractStage>,
}

impl WgcOneFrameProbeDiagnostics {
    pub fn from_contract(contract: WgcOneFrameProbeContract, api_probe: WgcNativeApiProbe) -> (r:
        Self)
        ensures
            r.api_probe == api_probe,
            r.missing_requirements@ == contract.spec_missing_requirements(api_probe.is_supported),
            r.next_stage == Some(r.missing_requirements@[0].spec_stage()),
    {
        let missing_requirements = contract.missing_requirements(&api_probe);
        let next_stage = if missing_requirements.len() > 0 {
            Some(missing_requirements[0].stage())
        } else {
            None
        };
        Self { api_probe, missing_requirements, next_stage }
    }

    pub fn first_contract_error(&self) -> (r: Option<WgcOneFrameProbeError>)
        ensures
            self.missing_requirements@.len() == 0 ==> r is None,
            self.missing_requirements@.len() > 0 ==> r == Some(
                WgcOneFrameProbeError::ContractNotReady {
                    requirement: self.missing_requirements@[0],
                },
            ),
    {
        if self.missing_requirements.len() > 0 {
            Some(WgcOneFrameProbeError::ContractNotReady { requirement: self.missing_requirements[0] })
        } else {
            None
        }
    }
}

/// The plan derived from a probe request.
#[derive(Debug, Clone, PartialEq, Eq)]
pub struct WgcOneFrameProbePlan {
    pub contract: WgcOneFrameProbeContract,
    pub status: WgcOneFrameProbeStatus,
    pub should_attempt_probe: bool,
    pub fallback: WgcOneFrameProbeFallback,
    pub error: Option<WgcOneFrameProbeError>,
    pub diagnostics: WgcOneFrameProbeDiagnostics,
    pub reason: String,
}

/// What the one-frame smoke run reports, derived from a plan.
#[derive(Debug, Clone, PartialEq, Eq)]
pub struct WgcOneFrameSmokeReport {
    pub status: WgcOneFrameSmokeStatus,
    pub plan_status: WgcOneFrameProbeStatus,
    pub attempted_real_wgc_api: bool,
    pub frame_capture_attempted: bool,
    pub frame_capture_confirmed: bool,
    pub should_attempt_probe: bool,
    pub fallback: WgcOneFrameProbeFallback,
    pub error: Option<WgcOneFrameProbeError>,
    pub reason: String,
}

/// The smoke status of a plan: only a ready plan that should run is ready to attempt.
pub open spec fn smoke_status_for(status: WgcOneFrameProbeStatus, should_attempt: bool) -> WgcOneFrameSmokeStatus {
    match status {
        WgcOneFrameProbeStatus::Disabled => WgcOneFrameSmokeStatus::NotRun,
        WgcOneFrameProbeStatus::InvalidRequest => WgcOneFrameSmokeStatus::InvalidRequest,
        WgcOneFrameProbeStatus::ProbeReady => if should_attempt {
            WgcOneFrameSmokeStatus::ReadyToAttempt
        } else {
            WgcOneFrameSmokeStatus::FallbackRequired
        },
        WgcOneFrameProbeStatus::GuardedDiagnosticsReady => WgcOneFrameSmokeStatus::ReadinessOnly,
        WgcOneFrameProbeStatus::FallbackPlanned => WgcOneFrameSmokeStatus::FallbackRequired,
    }
}

impl WgcOneFrameSmokeReport {
    pub fn from_plan(plan: WgcOneFrameProbePlan) -> (r: Self)
        ensures
            r.status == smoke_status_for(plan.status, plan.should_attempt_probe),
            r.plan_status == plan.status,
            !r.attempted_real_wgc_api && !r.frame_capture_attempted && !r.frame_capture_confirmed,
            r.should_attempt_probe == plan.should_attempt_probe,
            r.fallback == plan.fallback,
            r.error == plan.error,
            r.reason == plan.reason,
    {
        let status = match plan.status {
            WgcOneFrameProbeStatus::Disabled => WgcOneFrameSmokeStatus::NotRun,
            WgcOneFrameProbeStatus::InvalidRequest => WgcOneFrameSmokeStatus::InvalidRequest,
            WgcOneFrameProbeStatus::ProbeReady => {
                if plan.should_attempt_probe {
                    WgcOneFrameSmokeStatus::ReadyToAttempt
                } else {
                    WgcOneFrameSmokeStatus::FallbackRequired
                }
            },
            WgcOneFrameProbeStatus::GuardedDiagnosticsReady => WgcOneFrameSmokeStatus::ReadinessOnly,
            WgcOneFrameProbeStatus::FallbackPlanned => WgcOneFrameSmokeStatus::FallbackRequired,
        };
        Self {
            status,
            plan_status: plan.status,
            attempted_real_wgc_api: false,
            frame_capture_attempted: false,
            frame_capture_confirmed: false,
            should_attempt_probe: plan.should_attempt_probe,
            fallback: plan.fallback,
            error: plan.error,
            reason: plan.reason,
        }
    }
}

impl WgcOneFrameProbePlan {
    pub open spec fn spec_uses_fallback(&self) -> bool {
        !self.should_attempt_probe || !(self.fallback is Unavailable)
    }

    pub fn fallback(
        contract: WgcOneFrameProbeContract,
        diagnostics: WgcOneFrameProbeDiagnostics,
        status: WgcOneFrameProbeStatus,
        fallback: WgcOneFrameProbeFallback,
        error: Option<WgcOneFrameProbeError>,
        reason: String,
    ) -> (r: Self)
        ensures
            r == (WgcOneFrameProbePlan {
                contract,
                status,
                should_attempt_probe: false,
                fallback,
                error,
                diagnostics,
                reason,
            }),
    {
        Self { contract, status, should_attempt_probe: false, fallback, error, diagnostics, reason }
    }

    pub fn uses_fallback(&self) -> (r: bool)
        ensures
            r == self.spec_uses_fallback(),
    {
        !self.should_attempt_probe || match self.fallback {
            WgcOneFrameProbeFallback::Unavailable => false,
            _ => true,
        }
    }
}

} // verus!
