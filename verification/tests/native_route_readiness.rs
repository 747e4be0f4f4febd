use screenshot_native::capability::{
    default_native_overlay_launch_plan, NativeOverlayCapabilityFlag, NativeOverlayLaunchPlan,
};
use screenshot_native::capture::CaptureBackendKind;
use screenshot_native::capture_router::CaptureRouteDecision;
use screenshot_native::native_route_readiness::{
    default_native_route_readiness, resolve_native_route_readiness, NativeRouteReadinessInputs,
    NativeScreenshotMainRoute, Win32OverlayPumpContract,
};

fn production_ready_pump_contract() -> Win32OverlayPumpContract {
    Win32OverlayPumpContract {
        owns_thread: true,
        dispatches_input: true,
        blocks_until_terminal: true,
        supports_timeout: true,
        restores_focus_on_exit: true,
    }
}

fn current_pump_contract() -> Win32OverlayPumpContract {
    Win32OverlayPumpContract {
        owns_thread: false,
        dispatches_input: false,
        blocks_until_terminal: false,
        supports_timeout: false,
        restores_focus_on_exit: false,
    }
}

#[test]
fn current_diagnostics_keep_webview_route_with_explicit_blockers() {
    let decision = default_native_route_readiness(
        default_native_overlay_launch_plan(),
        current_pump_contract(),
    );
    let blockers = decision.blocker_labels();

    assert_eq!(
        decision.recommended_route,
        NativeScreenshotMainRoute::WebviewRgba
    );
    assert!(!decision.ready_for_native_dxgi_selected_output);
    assert!(blockers.contains(&"native-overlay-launch-plan-fallback"));
    assert!(blockers.contains(&"native-overlay-runtime-not-native"));
    assert!(blockers.contains(&"pump-does-not-own-thread"));
    assert!(blockers.contains(&"pump-does-not-restore-focus"));
    assert!(blockers.contains(&"wndproc-input-not-ready"));
    assert!(blockers.contains(&"alt-a-owned-by-global-shortcut"));
    assert!(blockers.contains(&"capture-route-not-dxgi"));
    assert!(blockers.contains(&"selected-output-effects-not-ready"));
}

#[test]
fn ready_contract_selects_native_dxgi_selected_output() {
    let decision = resolve_native_route_readiness(NativeRouteReadinessInputs {
        launch_plan: NativeOverlayLaunchPlan::native_mvp(
            NativeOverlayCapabilityFlag::EnabledMvp,
            CaptureRouteDecision::ready(CaptureBackendKind::DesktopDuplication),
        ),
        pump_contract: production_ready_pump_contract(),
        message_loop_dispatch_ready: true,
        wndproc_input_dispatch_ready: true,
        focus_restore_integrated: true,
        alt_a_owned_by_native_route: true,
        selected_output_effects_ready: true,
    });

    assert_eq!(
        decision.recommended_route,
        NativeScreenshotMainRoute::NativeDxgiSelectedOutput
    );
    assert!(decision.ready_for_native_dxgi_selected_output);
    assert!(decision.blockers.is_empty());
}

