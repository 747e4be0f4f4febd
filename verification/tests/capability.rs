use screenshot_native::capability::{
    default_native_overlay_launch_plan, resolve_native_overlay_launch_plan,
    resolve_native_overlay_launch_plan_with_route, NativeOverlayCapabilityFlag,
    NativeOverlayFallbackReason, ScreenshotOverlayRuntime,
};
use screenshot_native::capture::CaptureBackendKind;
use screenshot_native::capture_router::{
    CaptureRouteDecision, CaptureRouteFallbackReason, CaptureRouteStatus,
};

#[test]
fn enabled_capability_rejects_contract_only_wgc_route() {
    let plan = resolve_native_overlay_launch_plan_with_route(
        NativeOverlayCapabilityFlag::EnabledMvp,
        CaptureRouteDecision::ready(CaptureBackendKind::WindowsGraphicsCapture),
    );

    assert!(!plan.uses_native_overlay());
    assert!(!plan.uses_native_gpu_capture());
    assert_eq!(
        plan.fallback_reason,
        Some(NativeOverlayFallbackReason::NativeGpuCaptureFallback)
    );
}

#[test]
fn enabled_capability_keeps_route_fallback_reason() {
    let plan = resolve_native_overlay_launch_plan_with_route(
        NativeOverlayCapabilityFlag::EnabledMvp,
        CaptureRouteDecision::fallback(
            CaptureBackendKind::WindowsGraphicsCapture,
            CaptureRouteFallbackReason::D3d11ProbeUnavailable,
        ),
    );

    assert!(!plan.uses_native_overlay());
    assert_eq!(
        plan.fallback_reason,
        Some(NativeOverlayFallbackReason::NativeGpuCaptureFallback)
    );
    assert_eq!(plan.capture_route.status, CaptureRouteStatus::Fallback);
    assert_eq!(
        plan.capture_route.fallback_reason,
        CaptureRouteFallbackReason::D3d11ProbeUnavailable
    );
}

#[test]
fn default_launch_plan_stays_in_webview() {
    let plan = default_native_overlay_launch_plan();
    assert_eq!(plan.runtime, ScreenshotOverlayRuntime::WebviewRgba);
    assert!(!plan.uses_native_overlay());
    let disabled = resolve_native_overlay_launch_plan(NativeOverlayCapabilityFlag::Disabled);
    assert_eq!(disabled.runtime, ScreenshotOverlayRuntime::WebviewRgba);
    assert_eq!(
        disabled.fallback_reason,
        Some(NativeOverlayFallbackReason::CapabilityDisabled)
    );
    assert_eq!(NativeOverlayCapabilityFlag::from_enabled(true), NativeOverlayCapabilityFlag::EnabledMvp);
    assert!(!NativeOverlayCapabilityFlag::from_enabled(false).is_enabled());
}
