//! The steps of the native overlay smoke run and how its outcome is reported.
use vstd::prelude::*;

verus! {

/// One step of the smoke run.
#[derive(Debug, Clone, Copy, PartialEq, Eq, Structural)]
pub enum NativeOverlaySmokeStep {
    ResolveCapability,
    PlanLaunch,
    CreateOverlayWindow,
    AttachInputBridge,
    RenderBackdrop,
    RenderSelectionChrome,
    CaptureSelection,
    ReportOutcome,
}

/// Every step, in the order the smoke run takes them.
pub open spec fn all_smoke_steps() -> Seq<NativeOverlaySmokeStep> {
    seq![
        NativeOverlaySmokeStep::ResolveCapability,
        NativeOverlaySmokeStep::PlanLaunch,
        NativeOverlaySmokeStep::CreateOverlayWindow,
        NativeOverlaySmokeStep::AttachInputBridge,
        NativeOverlaySmokeStep::RenderBackdrop,
        NativeOverlaySmokeStep::RenderSelectionChrome,
        NativeOverlaySmokeStep::CaptureSelection,
        NativeOverlaySmokeStep::ReportOutcome,
    ]
}

impl NativeOverlaySmokeStep {
    pub open spec fn spec_as_str(self) -> Seq<char> {
        match self {
            NativeOverlaySmokeStep::ResolveCapability => "resolve-capability"@,
            NativeOverlaySmokeStep::PlanLaunch => "plan-launch"@,
            NativeOverlaySmokeStep::CreateOverlayWindow => "create-overlay-window"@,
            NativeOverlaySmokeStep::AttachInputBridge => "attach-input-bridge"@,
            NativeOverlaySmokeStep::RenderBackdrop => "render-backdrop"@,
            NativeOverlaySmokeStep::RenderSelectionChrome => "render-selection-chrome"@,
            NativeOverlaySmokeStep::CaptureSelection => "capture-selection"@,
            NativeOverlaySmokeStep::ReportOutcome => "report-outcome"@,
        }
    }

    /// Every step, in order.
    pub fn all() -> (r: &'static [NativeOverlaySmokeStep])
        ensures
            r@ == all_smoke_steps(),
    {
        let steps: &'static [NativeOverlaySmokeStep] = &[
            NativeOverlaySmokeStep::ResolveCapability,
            NativeOverlaySmokeStep::PlanLaunch,
            NativeOverlaySmokeStep::CreateOverlayWindow,
            NativeOverlaySmokeStep::AttachInputBridge,
            NativeOverlaySmokeStep::RenderBackdrop,
            NativeOverlaySmokeStep::RenderSelectionChrome,
            NativeOverlaySmokeStep::CaptureSelection,
            NativeOverlaySmokeStep::ReportOutcome,
        ];
        proof {
            assert(steps@ =~= all_smoke_steps());
        }
        steps
    }

    pub fn as_str(self) -> (r: &'static str)
        ensures
            r@ == self.spec_as_str(),
    {
        match self {
            NativeOverlaySmokeStep::ResolveCapability => "resolve-capability",
            NativeOverlaySmokeStep::PlanLaunch => "plan-launch",
            NativeOverlaySmokeStep::CreateOverlayWindow => "create-overlay-window",
            NativeOverlaySmokeStep::AttachInputBridge => "attach-input-bridge",
            NativeOverlaySmokeStep::RenderBackdrop => "render-backdrop",
            NativeOverlaySmokeStep::RenderSelectionChrome => "render-selection-chrome",
            NativeOverlaySmokeStep::CaptureSelection => "capture-selection",
            NativeOverlaySmokeStep::ReportOutcome => "report-outcome",
        }
    }
}

/// Where a smoke run, or one of its steps, stands.
#[derive(Debug, Clone, Copy, PartialEq, Eq, Structural)]
pub enum NativeOverlaySmokeStatus {
    Planned,
    Passed,
    Failed,
    Skipped,
}

impl NativeOverlaySmokeStatus {
    pub open spec fn spec_as_str(self) -> Seq<char> {
        match self {
            NativeOverlaySmokeStatus::Planned => "planned"@,
            NativeOverlaySmokeStatus::Passed => "passed"@,
            NativeOverlaySmokeStatus::Failed => "failed"@,
            NativeOverlaySmokeStatus::Skipped => "skipped"@,
        }
    }

    pub fn as_str(self) -> (r: &'static str)
        ensures
            r@ == self.spec_as_str(),
    {
        match self {
            NativeOverlaySmokeStatus::Planned => "planned",
            NativeOverlaySmokeStatus::Passed => "passed",
            NativeOverlaySmokeStatus::Failed => "failed",
            NativeOverlaySmokeStatus::Skipped => "skipped",
        }
    }

    pub fn is_terminal(self) -> (r: bool)
        ensures
            r == !(self is Planned),
    {
        match self {
            NativeOverlaySmokeStatus::Passed | NativeOverlaySmokeStatus::Failed
            | NativeOverlaySmokeStatus::Skipped => true,
            NativeOverlaySmokeStatus::Planned => false,
        }
    }
}

/// Why a smoke step failed.
#[derive(Debug, Clone, Copy, PartialEq, Eq, Structural)]
pub enum NativeOverlaySmokeFailureKind {
    CapabilityUnavailable,
    LaunchPlanRejected,
    OverlayWindowUnavailable,
    InputBridgeUnavailable,
    RenderUnavailable,
    CaptureUnavailable,
    UnexpectedRuntimeError,
}

impl NativeOverlaySmokeFailureKind {
    pub open spec fn spec_as_str(self) -> Seq<char> {
        match self {
            NativeOverlaySmokeFailureKind::CapabilityUnavailable => "capability-unavailable"@,
            NativeOverlaySmokeFailureKind::LaunchPlanRejected => "launch-plan-rejected"@,
            NativeOverlaySmokeFailureKind::OverlayWindowUnavailable => "overlay-window-unavailable"@,
            NativeOverlaySmokeFailureKind::InputBridgeUnavailable => "input-bridge-unavailable"@,
            NativeOverlaySmokeFailureKind::RenderUnavailable => "render-unavailable"@,
            NativeOverlaySmokeFailureKind::CaptureUnavailable => "capture-unavailable"@,
            NativeOverlaySmokeFailureKind::UnexpectedRuntimeError => "unexpected-runtime-error"@,
        }
    }

    pub fn as_str(self) -> (r: &'static str)
        ensures
            r@ == self.spec_as_str(),
    {
        match self {
            NativeOverlaySmokeFailureKind::CapabilityUnavailable => "capability-unavailable",
            NativeOverlaySmokeFailureKind::LaunchPlanRejected => "launch-plan-rejected",
            NativeOverlaySmokeFailureKind::OverlayWindowUnavailable => "overlay-window-unavailable",
            NativeOverlaySmokeFailureKind::InputBridgeUnavailable => "input-bridge-unavailable",
            NativeOverlaySmokeFailureKind::RenderUnavailable => "render-unavailable",
            NativeOverlaySmokeFailureKind::CaptureUnavailable => "capture-unavailable",
            NativeOverlaySmokeFailureKind::UnexpectedRuntimeError => "unexpected-runtime-error",
        }
    }
}

/// What to do after a failed smoke run.
#[derive(Debug, Clone, Copy, PartialEq, Eq, Structural)]
pub enum NativeOverlaySmokeRecoveryAction {
    KeepWebviewFallback,
    RetryNativeOverlay,
    DisableNativeOverlayForSession,
    CollectDiagnostics,
}

impl NativeOverlaySmokeRecoveryAction {
    pub open spec fn spec_as_str(self) -> Seq<char> {
        match self {
            NativeOverlaySmokeRecoveryAction::KeepWebviewFallback => "keep-webview-fallback"@,
            NativeOverlaySmokeRecoveryAction::RetryNativeOverlay => "retry-native-overlay"@,
            NativeOverlaySmokeRecoveryAction::DisableNativeOverlayForSession =>
                "disable-native-overlay-for-session"@,
            NativeOverlaySmokeRecoveryAction::CollectDiagnostics => "collect-diagnostics"@,
        }
    }

    pub fn as_str(self) -> (r: &'static str)
        ensures
            r@ == self.spec_as_str(),
    {
        match self {
            NativeOverlaySmokeRecoveryAction::KeepWebviewFallback => "keep-webview-fallback",
            NativeOverlaySmokeRecoveryAction::RetryNativeOverlay => "retry-native-overlay",
            NativeOverlaySmokeRecoveryAction::DisableNativeOverlayForSession =>
                "disable-native-overlay-for-session",
            NativeOverlaySmokeRecoveryAction::CollectDiagnostics => "collect-diagnostics",
        }
    }
}

/// A failed step, why it failed and how to recover.
#[derive(Debug, Clone, Copy, PartialEq, Eq)]
pub struct NativeOverlaySmokeFailure {
    pub step: NativeOverlaySmokeStep,
    pub kind: NativeOverlaySmokeFailureKind,
    pub recovery_action: NativeOverlaySmokeRecoveryAction,
    pub message: &'static str,
}

impl NativeOverlaySmokeFailure {
    pub fn new(
        step: NativeOverlaySmokeStep,
        kind: NativeOverlaySmokeFailureKind,
        recovery_action: NativeOverlaySmokeRecoveryAction,
        message: &'static str,
    ) -> (r: Self)
        ensures
            r == (NativeOverlaySmokeFailure { step, kind, recovery_action, message }),
    {
        Self { step, kind, recovery_action, message }
    }
}

/// The outcome of one step.
#[derive(Debug, Clone, Copy, PartialEq, Eq)]
pub struct NativeOverlaySmokeStepReport {
    pub step: NativeOverlaySmokeStep,
    pub status: NativeOverlaySmokeStatus,
    pub failure: Option<NativeOverlaySmokeFailure>,
}

impl NativeOverlaySmokeStepReport {
    pub fn planned(step: NativeOverlaySmokeStep) -> (r: Self)
        ensures
            r == (NativeOverlaySmokeStepReport {
                step,
                status: NativeOverlaySmokeStatus::Planned,
                failure: None,
            }),
    {
        Self { step, status: NativeOverlaySmokeStatus::Planned, failure: None }
    }

    pub fn passed(step: NativeOverlaySmokeStep) -> (r: Self)
        ensures
            r == (NativeOverlaySmokeStepReport {
                step,
                status: NativeOverlaySmokeStatus::Passed,
                failure: None,
            }),
    {
        Self { step, status: NativeOverlaySmokeStatus::Passed, failure: None }
    }

    pub fn skipped(step: NativeOverlaySmokeStep) -> (r: Self)
        ensures
            r == (NativeOverlaySmokeStepReport {
                step,
                status: NativeOverlaySmokeStatus::Skipped,
                failure: None,
            }),
    {
        Self { step, status: NativeOverlaySmokeStatus::Skipped, failure: None }
    }

    pub fn failed(step: NativeOverlaySmokeStep, failure: NativeOverlaySmokeFailure) -> (r: Self)
        ensures
            r == (NativeOverlaySmokeStepReport {
                step,
                status: NativeOverlaySmokeStatus::Failed,
                failure: Some(failure),
            }),
    {
        Self { step, status: NativeOverlaySmokeStatus::Failed, failure: Some(failure) }
    }
}

/// A smoke run: its name, steps and what it needs.
#[derive(Debug, Clone, Copy, PartialEq, Eq)]
pub struct NativeOverlaySmokePlan {
    pub name: &'static str,
    pub steps: &'static [NativeOverlaySmokeStep],
    pub requires_native_window: bool,
    pub requires_input_bridge: bool,
    pub requires_capture_backend: bool,
    pub has_runtime_side_effects: bool,
}

impl NativeOverlaySmokePlan {
    /// The MVP plan: every step, no runtime side effects.
    pub open spec fn is_mvp(self) -> bool {
        &&& self.name@ == "native-overlay-mvp-smoke"@
        &&& self.steps@ == all_smoke_steps()
        &&& self.requires_native_window
        &&& self.requires_input_bridge
        &&& self.requires_capture_backend
        &&& !self.has_runtime_side_effects
    }

    pub fn mvp() -> (r: Self)
        ensures
            r.is_mvp(),
    {
        Self {
            name: "native-overlay-mvp-smoke",
            steps: NativeOverlaySmokeStep::all(),
            requires_native_window: true,
            requires_input_bridge: true,
            requires_capture_backend: true,
            has_runtime_side_effects: false,
        }
    }

    pub fn planned_report(self) -> (r: NativeOverlaySmokeReport)
        ensures
            r == (NativeOverlaySmokeReport {
                plan: self,
                status: NativeOverlaySmokeStatus::Planned,
                completed_steps: 0,
                failed_step: None,
                recovery_action: None,
            }),
    {
        NativeOverlaySmokeReport {
            plan: self,
            status: NativeOverlaySmokeStatus::Planned,
            completed_steps: 0,
            failed_step: None,
            recovery_action: None,
        }
    }
}

/// The outcome of a smoke run.
#[derive(Debug, Clone, Copy, PartialEq, Eq)]
pub struct NativeOverlaySmokeReport {
    pub plan: NativeOverlaySmokePlan,
    pub status: NativeOverlaySmokeStatus,
    pub completed_steps: usize,
    pub failed_step: Option<NativeOverlaySmokeStep>,
    pub recovery_action: Option<NativeOverlaySmokeRecoveryAction>,
}

impl NativeOverlaySmokeReport {
    pub fn passed(plan: NativeOverlaySmokePlan) -> (r: Self)
        ensures
            r == (NativeOverlaySmokeReport {
                plan,
                status: NativeOverlaySmokeStatus::Passed,
                completed_steps: plan.steps@.len() as usize,
                failed_step: None,
                recovery_action: None,
            }),
    {
        Self {
            plan,
            status: NativeOverlaySmokeStatus::Passed,
            completed_steps: plan.steps.len(),
            failed_step: None,
            recovery_action: None,
        }
    }

    pub fn skipped(plan: NativeOverlaySmokePlan, recovery_action: NativeOverlaySmokeRecoveryAction) -> (r:
        Self)
        ensures
            r == (NativeOverlaySmokeReport {
                plan,
                status: NativeOverlaySmokeStatus::Skipped,
                completed_steps: 0,
                failed_step: None,
                recovery_action: Some(recovery_action),
            }),
    {
        Self {
            plan,
            status: NativeOverlaySmokeStatus::Skipped,
            completed_steps: 0,
            failed_step: None,
            recovery_action: Some(recovery_action),
        }
    }

    pub fn failed(
        plan: NativeOverlaySmokePlan,
        completed_steps: usize,
        failure: NativeOverlaySmokeFailure,
    ) -> (r: Self)
        ensures
            r == (NativeOverlaySmokeReport {
                plan,
                status: NativeOverlaySmokeStatus::Failed,
                completed_steps,
                failed_step: Some(failure.step),
                recovery_action: Some(failure.recovery_action),
            }),
    {
        Self {
            plan,
            status: NativeOverlaySmokeStatus::Failed,
            completed_steps,
            failed_step: Some(failure.step),
            recovery_action: Some(failure.recovery_action),
        }
    }

    pub fn is_success(self) -> (r: bool)
        ensures
            r == (self.status is Passed),
    {
        match self.status {
            NativeOverlaySmokeStatus::Passed => true,
            _ => false,
        }
    }
}

pub fn default_native_overlay_smoke_plan() -> (r: NativeOverlaySmokePlan)
    ensures
        r.is_mvp(),
{
    NativeOverlaySmokePlan::mvp()
}

pub fn planned_native_overlay_smoke_report() -> (r: NativeOverlaySmokeReport)
    ensures
        r.plan.is_mvp(),
        r.status == NativeOverlaySmokeStatus::Planned,
        r.completed_steps == 0,
        r.failed_step is None,
        r.recovery_action is None,
{
    default_native_overlay_smoke_plan().planned_report()
}

} // verus!
