//! Whether the screenshot overlay runs natively or in the webview, and why.
use vstd::prelude::*;

use crate::capture::CaptureBackendKind;
use crate::capture_router::{default_capture_route_decision, CaptureRouteDecision};

verus! {

/// The feature flag of the native overlay.
#[derive(Debug, Clone, Copy, PartialEq, Eq, Structural)]
pub enum NativeOverlayCapabilityFlag {
    Disabled,
    EnabledMvp,
}

impl NativeOverlayCapabilityFlag {
    pub open spec fn spec_is_enabled(self) -> bool {
        self is EnabledMvp
    }

    pub fn from_enabled(enabled: bool) -> (r: Self)
        ensures
            r.spec_is_enabled() == enabled,
    {
        if enabled {
            NativeOverlayCapabilityFlag::EnabledMvp
        } else {
            NativeOverlayCapabilityFlag::Disabled
        }
    }

    pub fn is_enabled(self) -> (r: bool)
        ensures
            r == self.spec_is_enabled(),
    {
        match self {
            NativeOverlayCapabilityFlag::EnabledMvp => true,
            NativeOverlayCapabilityFlag::Disabled => false,
        }
    }
}

/// Why the webview overlay is used.
#[derive(Debug, Clone, Copy, PartialEq, Eq, Structural)]
pub enum NativeOverlayFallbackReason {
    CapabilityDisabled,
    MvpNotWired,
    NativeGpuCaptureFallback,
}

impl NativeOverlayFallbackReason {
    pub open spec fn spec_as_str(self) -> Seq<char> {
        match self {
            NativeOverlayFallbackReason::CapabilityDisabled => "capability-disabled"@,
            NativeOverlayFallbackReason::MvpNotWired => "mvp-not-wired"@,
            NativeOverlayFallbackReason::NativeGpuCaptureFallback => "native-gpu-capture-fallback"@,
        }
    }

    pub fn as_str(self) -> (r: &'static str)
        ensures
            r@ == self.spec_as_str(),
    {
        match self {
            NativeOverlayFallbackReason::CapabilityDisabled => "capability-disabled",
            NativeOverlayFallbackReason::MvpNotWired => "mvp-not-wired",
            NativeOverlayFallbackReason::NativeGpuCaptureFallback => "native-gpu-capture-fallback",
        }
    }
}

/// Which overlay runtime shows the screenshot.
#[derive(Debug, Clone, Copy, PartialEq, Eq, Structural)]
pub enum ScreenshotOverlayRuntime {
    WebviewRgba,
    NativeOverlayMvp,
}

impl ScreenshotOverlayRuntime {
    pub open spec fn spec_as_str(self) -> Seq<char> {
        match self {
            ScreenshotOverlayRuntime::WebviewRgba => "webview-rgba"@,
            ScreenshotOverlayRuntime::NativeOverlayMvp => "native-overlay-mvp"@,
        }
    }

    pub fn as_str(self) -> (r: &'static str)
        ensures
            r@ == self.spec_as_str(),
    {
        match self {
            ScreenshotOverlayRuntime::WebviewRgba => "webview-rgba",
            ScreenshotOverlayRuntime::NativeOverlayMvp => "native-overlay-mvp",
        }
    }
}

/// How the overlay will be launched.
#[derive(Debug, Clone, Copy, PartialEq, Eq, Structural)]
pub struct NativeOverlayLaunchPlan {
    pub capability: NativeOverlayCapabilityFlag,
    pub runtime: ScreenshotOverlayRuntime,
    pub fallback_reason: Option<NativeOverlayFallbackReason>,
    pub capture_route: CaptureRouteDecision,
}

impl NativeOverlayLaunchPlan {
    pub open spec fn spec_fallback(reason: NativeOverlayFallbackReason) -> Self {
        NativeOverlayLaunchPlan {
            capability: NativeOverlayCapabilityFlag::Disabled,
            runtime: ScreenshotOverlayRuntime::WebviewRgba,
            fallback_reason: Some(reason),
            capture_route: CaptureRouteDecision::spec_ready(CaptureBackendKind::ExistingCpu),
        }
    }

    pub open spec fn spec_uses_native_overlay(self) -> bool {
        self.runtime is NativeOverlayMvp
    }

    pub open spec fn spec_uses_native_gpu_capture(self) -> bool {
        self.spec_uses_native_overlay() && self.capture_route.selected.spec_is_gpu()
    }

    pub fn fallback(reason: NativeOverlayFallbackReason) -> (r: Self)
        ensures
            r == Self::spec_fallback(reason),
    {
        Self {
            capability: NativeOverlayCapabilityFlag::Disabled,
            runtime: ScreenshotOverlayRuntime::WebviewRgba,
            fallback_reason: Some(reason),
            capture_route: default_capture_route_decision(),
        }
    }

    pub fn native_mvp(capability: NativeOverlayCapabilityFlag, capture_route: CaptureRouteDecision) -> (r:
        Self)
        ensures
            r == (NativeOverlayLaunchPlan {
                capability,
                runtime: ScreenshotOverlayRuntime::NativeOverlayMvp,
                fallback_reason: None,
                capture_route,
            }),
    {
        Self {
            capability,
            runtime: ScreenshotOverlayRuntime::NativeOverlayMvp,
            fallback_reason: None,
            capture_route,
        }
    }

    pub fn uses_native_overlay(self) -> (r: bool)
        ensures
            r == self.spec_uses_native_overlay(),
    {
        match self.runtime {
            ScreenshotOverlayRuntime::NativeOverlayMvp => true,
            ScreenshotOverlayRuntime::WebviewRgba => false,
        }
    }

    pub fn uses_native_gpu_capture(self) -> (r: bool)
        ensures
            r == self.spec_uses_native_gpu_capture(),
    {
        self.uses_native_overlay() && self.capture_route.selected.is_gpu()
    }
}

/// With the capability enabled the plan keeps the route but stays in the webview (every
/// backend a route can select is still contract-only for the native overlay); with it
/// disabled the plan is the default webview fallback.
pub open spec fn spec_launch_plan(
    capability: NativeOverlayCapabilityFlag,
    capture_route: CaptureRouteDecision,
) -> NativeOverlayLaunchPlan {
    if capability.spec_is_enabled() {
        NativeOverlayLaunchPlan {
            capability,
            runtime: ScreenshotOverlayRuntime::WebviewRgba,
            fallback_reason: Some(NativeOverlayFallbackReason::NativeGpuCaptureFallback),
            capture_route,
        }
    } else {
        NativeOverlayLaunchPlan::spec_fallback(NativeOverlayFallbackReason::CapabilityDisabled)
    }
}

pub fn resolve_native_overlay_launch_plan(capability: NativeOverlayCapabilityFlag) -> (r:
    NativeOverlayLaunchPlan)
    ensures
        r == spec_launch_plan(
            capability,
            CaptureRouteDecision::spec_ready(CaptureBackendKind::ExistingCpu),
        ),
{
    resolve_native_overlay_launch_plan_with_route(capability, default_capture_route_decision())
}

pub fn resolve_native_overlay_launch_plan_with_route(
    capability: NativeOverlayCapabilityFlag,
    capture_route: CaptureRouteDecision,
) -> (r: NativeOverlayLaunchPlan)
    ensures
        r == spec_launch_plan(capability, capture_route),
{
    if capability.is_enabled() {
        let known_backend = match capture_route.selected {
            CaptureBackendKind::ExistingCpu | CaptureBackendKind::WindowsGraphicsCapture
            | CaptureBackendKind::DesktopDuplication => true,
        };
        if capture_route.uses_fallback() || known_backend {
            NativeOverlayLaunchPlan {
                capability,
                runtime: ScreenshotOverlayRuntime::WebviewRgba,
                fallback_reason: Some(NativeOverlayFallbackReason::NativeGpuCaptureFallback),
                capture_route,
            }
        } else {
            NativeOverlayLaunchPlan::native_mvp(capability, capture_route)
        }
    } else {
        NativeOverlayLaunchPlan::fallback(NativeOverlayFallbackReason::CapabilityDisabled)
    }
}

pub fn default_native_overlay_capability() -> (r: NativeOverlayCapabilityFlag)
    ensures
        r == NativeOverlayCapabilityFlag::Disabled,
{
    NativeOverlayCapabilityFlag::Disabled
}

pub fn default_native_overlay_launch_plan() -> (r: NativeOverlayLaunchPlan)
    ensures
        r == NativeOverlayLaunchPlan::spec_fallback(NativeOverlayFallbackReason::CapabilityDisabled),
{
    resolve_native_overlay_launch_plan(default_native_overlay_capability())
}

/// No capability and no route launches the native overlay or native GPU capture; the
/// plan always names why the webview is used.
pub proof fn launch_plans_stay_in_webview(
    capability: NativeOverlayCapabilityFlag,
    capture_route: CaptureRouteDecision,
)
    ensures
        !spec_launch_plan(capability, capture_route).spec_uses_native_overlay(),
        !spec_launch_plan(capability, capture_route).spec_uses_native_gpu_capture(),
        spec_launch_plan(capability, capture_route).fallback_reason is Some,
{
}

} // verus!
