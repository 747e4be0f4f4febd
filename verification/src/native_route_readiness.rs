//! Whether the native DXGI selected-output route may replace the webview route.
use vstd::prelude::*;

use crate::capability::NativeOverlayLaunchPlan;
use crate::capture::{CaptureBackendKind, CaptureReadbackMode};

verus! {

/// What the Win32 overlay message pump promises about its own behaviour.
#[derive(Debug, Clone, Copy, PartialEq, Eq, Structural)]
pub struct Win32OverlayPumpContract {
    pub owns_thread: bool,
    pub dispatches_input: bool,
    pub blocks_until_terminal: bool,
    pub supports_timeout: bool,
    pub restores_focus_on_exit: bool,
}

/// The route a screenshot takes from capture to the selected image.
#[derive(Debug, Clone, Copy, PartialEq, Eq, Structural)]
pub enum NativeScreenshotMainRoute {
    WebviewRgba,
    NativeDxgiSelectedOutput,
}

impl NativeScreenshotMainRoute {
    pub open spec fn spec_as_str(self) -> Seq<char> {
        match self {
            NativeScreenshotMainRoute::WebviewRgba => "webview-rgba"@,
            NativeScreenshotMainRoute::NativeDxgiSelectedOutput => "native-dxgi-selected-output"@,
        }
    }

    pub fn as_str(self) -> (r: &'static str)
        ensures
            r@ == self.spec_as_str(),
    {
        match self {
            NativeScreenshotMainRoute::WebviewRgba => "webview-rgba",
            NativeScreenshotMainRoute::NativeDxgiSelectedOutput => "native-dxgi-selected-output",
        }
    }
}

/// One reason the native route is not ready yet.
#[derive(Debug, Clone, Copy, PartialEq, Eq, Structural)]
pub enum NativeRouteReadinessBlocker {
    NativeOverlayLaunchPlanFallback,
    NativeOverlayRuntimeNotNative,
    PumpDoesNotOwnThread,
    PumpDoesNotDispatchInput,
    PumpDoesNotRestoreFocus,
    MessageLoopDispatchNotReady,
    WndProcInputNotReady,
    FocusRestoreNotIntegrated,
    AltAOwnedByGlobalShortcut,
    CaptureRouteFallback,
    CaptureRouteNotDxgi,
    CaptureRouteNotGpuReadback,
    SelectedOutputEffectsNotReady,
}

impl NativeRouteReadinessBlocker {
    pub open spec fn spec_as_str(self) -> Seq<char> {
        match self {
            NativeRouteReadinessBlocker::NativeOverlayLaunchPlanFallback =>
                "native-overlay-launch-plan-fallback"@,
            NativeRouteReadinessBlocker::NativeOverlayRuntimeNotNative =>
                "native-overlay-runtime-not-native"@,
            NativeRouteReadinessBlocker::PumpDoesNotOwnThread => "pump-does-not-own-thread"@,
            NativeRouteReadinessBlocker::PumpDoesNotDispatchInput => "pump-does-not-dispatch-input"@,
            NativeRouteReadinessBlocker::PumpDoesNotRestoreFocus => "pump-does-not-restore-focus"@,
            NativeRouteReadinessBlocker::MessageLoopDispatchNotReady =>
                "message-loop-dispatch-not-ready"@,
            NativeRouteReadinessBlocker::WndProcInputNotReady => "wndproc-input-not-ready"@,
            NativeRouteReadinessBlocker::FocusRestoreNotIntegrated => "focus-restore-not-integrated"@,
            NativeRouteReadinessBlocker::AltAOwnedByGlobalShortcut =>
                "alt-a-owned-by-global-shortcut"@,
            NativeRouteReadinessBlocker::CaptureRouteFallback => "capture-route-fallback"@,
            NativeRouteReadinessBlocker::CaptureRouteNotDxgi => "capture-route-not-dxgi"@,
            NativeRouteReadinessBlocker::CaptureRouteNotGpuReadback =>
                "capture-route-not-gpu-readback"@,
            NativeRouteReadinessBlocker::SelectedOutputEffectsNotReady =>
                "selected-output-effects-not-ready"@,
        }
    }

    pub fn as_str(self) -> (r: &'static str)
        ensures
            r@ == self.spec_as_str(),
    {
        match self {
            NativeRouteReadinessBlocker::NativeOverlayLaunchPlanFallback =>
                "native-overlay-launch-plan-fallback",
            NativeRouteReadinessBlocker::NativeOverlayRuntimeNotNative =>
                "native-overlay-runtime-not-native",
            NativeRouteReadinessBlocker::PumpDoesNotOwnThread => "pump-does-not-own-thread",
            NativeRouteReadinessBlocker::PumpDoesNotDispatchInput => "pump-does-not-dispatch-input",
            NativeRouteReadinessBlocker::PumpDoesNotRestoreFocus => "pump-does-not-restore-focus",
            NativeRouteReadinessBlocker::MessageLoopDispatchNotReady =>
                "message-loop-dispatch-not-ready",
            NativeRouteReadinessBlocker::WndProcInputNotReady => "wndproc-input-not-ready",
            NativeRouteReadinessBlocker::FocusRestoreNotIntegrated => "focus-restore-not-integrated",
            NativeRouteReadinessBlocker::AltAOwnedByGlobalShortcut => "alt-a-owned-by-global-shortcut",
            NativeRouteReadinessBlocker::CaptureRouteFallback => "capture-route-fallback",
            NativeRouteReadinessBlocker::CaptureRouteNotDxgi => "capture-route-not-dxgi",
            NativeRouteReadinessBlocker::CaptureRouteNotGpuReadback => "capture-route-not-gpu-readback",
            NativeRouteReadinessBlocker::SelectedOutputEffectsNotReady =>
                "selected-output-effects-not-ready",
        }
    }
}

/// Everything the readiness decision looks at.
#[derive(Debug, Clone, Copy, PartialEq, Eq, Structural)]
pub struct NativeRouteReadinessInputs {
    pub launch_plan: NativeOverlayLaunchPlan,
    pub pump_contract: Win32OverlayPumpContract,
    pub message_loop_dispatch_ready: bool,
    pub wndproc_input_dispatch_ready: bool,
    pub focus_restore_integrated: bool,
    pub alt_a_owned_by_native_route: bool,
    pub selected_output_effects_ready: bool,
}

impl NativeRouteReadinessInputs {
    /// The inputs as they stand today: none of the integration gates is closed.
    pub open spec fn spec_current_diagnostics(
        launch_plan: NativeOverlayLaunchPlan,
        pump_contract: Win32OverlayPumpContract,
    ) -> Self {
        NativeRouteReadinessInputs {
            launch_plan,
            pump_contract,
            message_loop_dispatch_ready: false,
            wndproc_input_dispatch_ready: false,
            focus_restore_integrated: false,
            alt_a_owned_by_native_route: false,
            selected_output_effects_ready: false,
        }
    }

    pub fn current_diagnostics(
        launch_plan: NativeOverlayLaunchPlan,
        pump_contract: Win32OverlayPumpContract,
    ) -> (r: Self)
        ensures
            r == Self::spec_current_diagnostics(launch_plan, pump_contract),
    {
        Self {
            launch_plan,
            pump_contract,
            message_loop_dispatch_ready: false,
            wndproc_input_dispatch_ready: false,
            focus_restore_integrated: false,
            alt_a_owned_by_native_route: false,
            selected_output_effects_ready: false,
        }
    }
}

/// `blocker` when `blocked` holds, nothing otherwise.
pub open spec fn blocker_if(blocked: bool, blocker: NativeRouteReadinessBlocker) -> Seq<
    NativeRouteReadinessBlocker,
> {
    if blocked {
        seq![blocker]
    } else {
        Seq::empty()
    }
}

/// The blockers of `inputs`, each gate in a fixed order.
pub open spec fn spec_readiness_blockers(inputs: NativeRouteReadinessInputs) -> Seq<
    NativeRouteReadinessBlocker,
> {
    let plan = inputs.launch_plan;
    let pump = inputs.pump_contract;
    blocker_if(plan.fallback_reason is Some, NativeRouteReadinessBlocker::NativeOverlayLaunchPlanFallback)
        + blocker_if(
        !plan.spec_uses_native_overlay(),
        NativeRouteReadinessBlocker::NativeOverlayRuntimeNotNative,
    ) + blocker_if(!pump.owns_thread, NativeRouteReadinessBlocker::PumpDoesNotOwnThread)
        + blocker_if(!pump.dispatches_input, NativeRouteReadinessBlocker::PumpDoesNotDispatchInput)
        + blocker_if(!pump.restores_focus_on_exit, NativeRouteReadinessBlocker::PumpDoesNotRestoreFocus)
        + blocker_if(
        !inputs.message_loop_dispatch_ready,
        NativeRouteReadinessBlocker::MessageLoopDispatchNotReady,
    ) + blocker_if(
        !inputs.wndproc_input_dispatch_ready,
        NativeRouteReadinessBlocker::WndProcInputNotReady,
    ) + blocker_if(
        !inputs.focus_restore_integrated,
        NativeRouteReadinessBlocker::FocusRestoreNotIntegrated,
    ) + blocker_if(
        !inputs.alt_a_owned_by_native_route,
        NativeRouteReadinessBlocker::AltAOwnedByGlobalShortcut,
    ) + blocker_if(
        plan.capture_route.status is Fallback,
        NativeRouteReadinessBlocker::CaptureRouteFallback,
    ) + blocker_if(
        !(plan.capture_route.selected is DesktopDuplication),
        NativeRouteReadinessBlocker::CaptureRouteNotDxgi,
    ) + blocker_if(
        !(plan.capture_route.contract.readback_mode is GpuTextureReadback),
        NativeRouteReadinessBlocker::CaptureRouteNotGpuReadback,
    ) + blocker_if(
        !inputs.selected_output_effects_ready,
        NativeRouteReadinessBlocker::SelectedOutputEffectsNotReady,
    )
}

/// Every gate of the native route is closed.
pub open spec fn all_gates_ready(inputs: NativeRouteReadinessInputs) -> bool {
    let plan = inputs.launch_plan;
    let pump = inputs.pump_contract;
    &&& plan.fallback_reason is None
    &&& plan.spec_uses_native_overlay()
    &&& pump.owns_thread
    &&& pump.dispatches_input
    &&& pump.restores_focus_on_exit
    &&& inputs.message_loop_dispatch_ready
    &&& inputs.wndproc_input_dispatch_ready
    &&& inputs.focus_restore_integrated
    &&& inputs.alt_a_owned_by_native_route
    &&& plan.capture_route.status is Ready
    &&& plan.capture_route.selected is DesktopDuplication
    &&& plan.capture_route.contract.readback_mode is GpuTextureReadback
    &&& inputs.selected_output_effects_ready
}

/// The route taken, the readiness flag, and the blockers behind it.
#[derive(Debug, Clone, PartialEq, Eq)]
pub struct NativeRouteReadinessDecision {
    pub recommended_route: NativeScreenshotMainRoute,
    pub ready_for_native_dxgi_selected_output: bool,
    pub blockers: Vec<NativeRouteReadinessBlocker>,
}

impl NativeRouteReadinessDecision {
    /// Whether this decision is the one `inputs` call for.
    pub open spec fn decides(self, inputs: NativeRouteReadinessInputs) -> bool {
        let blockers = spec_readiness_blockers(inputs);
        &&& self.blockers@ == blockers
        &&& self.ready_for_native_dxgi_selected_output == (blockers.len() == 0)
        &&& self.recommended_route == (if blockers.len() == 0 {
            NativeScreenshotMainRoute::NativeDxgiSelectedOutput
        } else {
            NativeScreenshotMainRoute::WebviewRgba
        })
    }

    pub fn blocker_labels(&self) -> (r: Vec<&'static str>)
        ensures
            r@.len() == self.blockers@.len(),
            forall|i: int| 0 <= i < r@.len() ==> #[trigger] r@[i]@ == self.blockers@[i].spec_as_str(),
    {
        let mut labels: Vec<&'static str> = Vec::new();
        let mut i: usize = 0;
        while i < self.blockers.len()
            invariant
                i <= self.blockers@.len(),
                labels@.len() == i,
                forall|j: int| 0 <= j < i ==> #[trigger] labels@[j]@ == self.blockers@[j].spec_as_str(),
            decreases self.blockers@.len() - i,
        {
            labels.push(self.blockers[i].as_str());
            i = i + 1;
        }
        labels
    }
}

fn push_blocker_if(
    blockers: &mut Vec<NativeRouteReadinessBlocker>,
    blocked: bool,
    blocker: NativeRouteReadinessBlocker,
)
    ensures
        final(blockers)@ == old(blockers)@ + blocker_if(blocked, blocker),
{
    if blocked {
        blockers.push(blocker);
    } else {
        assert(old(blockers)@ + blocker_if(blocked, blocker) =~= old(blockers)@);
    }
}

pub fn default_native_route_readiness(
    launch_plan: NativeOverlayLaunchPlan,
    pump_contract: Win32OverlayPumpContract,
) -> (r: NativeRouteReadinessDecision)
    ensures
        r.decides(NativeRouteReadinessInputs::spec_current_diagnostics(launch_plan, pump_contract)),
{
    resolve_native_route_readiness(
        NativeRouteReadinessInputs::current_diagnostics(launch_plan, pump_contract),
    )
}

pub fn resolve_native_route_readiness(inputs: NativeRouteReadinessInputs) -> (r:
    NativeRouteReadinessDecision)
    ensures
        r.decides(inputs),
{
    let plan = inputs.launch_plan;
    let pump = inputs.pump_contract;
    let mut blockers: Vec<NativeRouteReadinessBlocker> = Vec::new();
    push_blocker_if(
        &mut blockers,
        plan.fallback_reason.is_some(),
        NativeRouteReadinessBlocker::NativeOverlayLaunchPlanFallback,
    );
    push_blocker_if(
        &mut blockers,
        !plan.uses_native_overlay(),
        NativeRouteReadinessBlocker::NativeOverlayRuntimeNotNative,
    );
    push_blocker_if(&mut blockers, !pump.owns_thread, NativeRouteReadinessBlocker::PumpDoesNotOwnThread);
    push_blocker_if(
        &mut blockers,
        !pump.dispatches_input,
        NativeRouteReadinessBlocker::PumpDoesNotDispatchInput,
    );
    push_blocker_if(
        &mut blockers,
        !pump.restores_focus_on_exit,
        NativeRouteReadinessBlocker::PumpDoesNotRestoreFocus,
    );
    push_blocker_if(
        &mut blockers,
        !inputs.message_loop_dispatch_ready,
        NativeRouteReadinessBlocker::MessageLoopDispatchNotReady,
    );
    push_blocker_if(
        &mut blockers,
        !inputs.wndproc_input_dispatch_ready,
        NativeRouteReadinessBlocker::WndProcInputNotReady,
    );
    push_blocker_if(
        &mut blockers,
        !inputs.focus_restore_integrated,
        NativeRouteReadinessBlocker::FocusRestoreNotIntegrated,
    );
    push_blocker_if(
        &mut blockers,
        !inputs.alt_a_owned_by_native_route,
        NativeRouteReadinessBlocker::AltAOwnedByGlobalShortcut,
    );
    push_blocker_if(
        &mut blockers,
        plan.capture_route.uses_fallback(),
        NativeRouteReadinessBlocker::CaptureRouteFallback,
    );
    let is_dxgi = match plan.capture_route.selected {
        CaptureBackendKind::DesktopDuplication => true,
        _ => false,
    };
    push_blocker_if(&mut blockers, !is_dxgi, NativeRouteReadinessBlocker::CaptureRouteNotDxgi);
    let is_gpu_readback = match plan.capture_route.contract.readback_mode {
        CaptureReadbackMode::GpuTextureReadback => true,
        _ => false,
    };
    push_blocker_if(
        &mut blockers,
        !is_gpu_readback,
        NativeRouteReadinessBlocker::CaptureRouteNotGpuReadback,
    );
    push_blocker_if(
        &mut blockers,
        !inputs.selected_output_effects_ready,
        NativeRouteReadinessBlocker::SelectedOutputEffectsNotReady,
    );
    assert(blockers@ =~= spec_readiness_blockers(inputs));
    let ready_for_native_dxgi_selected_output = blockers.len() == 0;
    let recommended_route = if ready_for_native_dxgi_selected_output {
        NativeScreenshotMainRoute::NativeDxgiSelectedOutput
    } else {
        NativeScreenshotMainRoute::WebviewRgba
    };
    NativeRouteReadinessDecision { recommended_route, ready_for_native_dxgi_selected_output, blockers }
}

proof fn blocker_if_len(blocked: bool, blocker: NativeRouteReadinessBlocker)
    ensures
        blocker_if(blocked, blocker).len() == (if blocked { 1int } else { 0int }),
{
}

/// The native DXGI selected-output route is recommended exactly when every gate is
/// closed: the launch plan is native with no fallback, the pump owns its thread,
/// dispatches input and restores focus, the message loop, window procedure, focus
/// restore, Alt+A ownership and selected-output effects are ready, and the capture
/// route is a ready DXGI route with GPU readback. Otherwise the webview route stays.
pub proof fn native_route_requires_every_gate(inputs: NativeRouteReadinessInputs)
    ensures
        (spec_readiness_blockers(inputs).len() == 0) == all_gates_ready(inputs),
{
    let plan = inputs.launch_plan;
    let pump = inputs.pump_contract;
    blocker_if_len(plan.fallback_reason is Some, NativeRouteReadinessBlocker::NativeOverlayLaunchPlanFallback);
    blocker_if_len(!plan.spec_uses_native_overlay(), NativeRouteReadinessBlocker::NativeOverlayRuntimeNotNative);
    blocker_if_len(!pump.owns_thread, NativeRouteReadinessBlocker::PumpDoesNotOwnThread);
    blocker_if_len(!pump.dispatches_input, NativeRouteReadinessBlocker::PumpDoesNotDispatchInput);
    blocker_if_len(!pump.restores_focus_on_exit, NativeRouteReadinessBlocker::PumpDoesNotRestoreFocus);
    blocker_if_len(!inputs.message_loop_dispatch_ready, NativeRouteReadinessBlocker::MessageLoopDispatchNotReady);
    blocker_if_len(!inputs.wndproc_input_dispatch_ready, NativeRouteReadinessBlocker::WndProcInputNotReady);
    blocker_if_len(!inputs.focus_restore_integrated, NativeRouteReadinessBlocker::FocusRestoreNotIntegrated);
    blocker_if_len(!inputs.alt_a_owned_by_native_route, NativeRouteReadinessBlocker::AltAOwnedByGlobalShortcut);
    blocker_if_len(plan.capture_route.status is Fallback, NativeRouteReadinessBlocker::CaptureRouteFallback);
    blocker_if_len(!(plan.capture_route.selected is DesktopDuplication), NativeRouteReadinessBlocker::CaptureRouteNotDxgi);
    blocker_if_len(
        !(plan.capture_route.contract.readback_mode is GpuTextureReadback),
        NativeRouteReadinessBlocker::CaptureRouteNotGpuReadback,
    );
    blocker_if_len(!inputs.selected_output_effects_ready, NativeRouteReadinessBlocker::SelectedOutputEffectsNotReady);
}

/// Today's diagnostics never recommend the native route: with the integration gates
/// still open, the decision keeps the webview and lists the open gates.
pub proof fn current_diagnostics_keep_webview(
    launch_plan: NativeOverlayLaunchPlan,
    pump_contract: Win32OverlayPumpContract,
)
    ensures
        !all_gates_ready(NativeRouteReadinessInputs::spec_current_diagnostics(launch_plan, pump_contract)),
        spec_readiness_blockers(
            NativeRouteReadinessInputs::spec_current_diagnostics(launch_plan, pump_contract),
        ).contains(NativeRouteReadinessBlocker::SelectedOutputEffectsNotReady),
{
    let inputs = NativeRouteReadinessInputs::spec_current_diagnostics(launch_plan, pump_contract);
    native_route_requires_every_gate(inputs);
    let s = spec_readiness_blockers(inputs);
    assert(s[s.len() - 1] == NativeRouteReadinessBlocker::SelectedOutputEffectsNotReady);
}

} // verus!
