//! Resolving a one-frame WGC probe request into a plan.
use vstd::prelude::*;

use crate::wgc_contract::{
    WgcContractRequirement, WgcContractStage, WgcNativeApiProbe, WgcOneFrameProbeContract,
    WgcOneFrameProbeDiagnostics, WgcOneFrameProbeError, WgcOneFrameProbeFallback,
    WgcOneFrameProbePlan, WgcOneFrameProbeRequest, WgcOneFrameProbeStatus, WgcOneFrameSmokeReport,
    smoke_status_for,
};

verus! {

/// The platform answer: Windows Graphics Capture is not available off Windows.
pub fn probe_wgc_native_api_support() -> (r: WgcNativeApiProbe)
    ensures
        !r.is_windows,
        !r.is_supported,
        r.reason matches Some(reason) && reason@ == "Windows Graphics Capture requires Windows"@,
{
    WgcNativeApiProbe::unavailable(false, String::from_str("Windows Graphics Capture requires Windows"))
}

pub fn default_wgc_one_frame_probe_contract() -> (r: WgcOneFrameProbeContract)
    ensures
        r == WgcOneFrameProbeContract::spec_guarded_one_frame(0),
{
    WgcOneFrameProbeContract::guarded_one_frame(0)
}

/// The reason carried by the error of an unsupported API probe.
pub open spec fn api_fallback_reason(api_probe: WgcNativeApiProbe) -> Seq<char> {
    match api_probe.reason {
        Some(reason) => reason@,
        None => "Windows Graphics Capture support probe returned false"@,
    }
}

/// `plan` is what a request resolves to, given the API probe that was used.
pub open spec fn is_plan_for(
    plan: WgcOneFrameProbePlan,
    request: WgcOneFrameProbeRequest,
    api_probe: WgcNativeApiProbe,
) -> bool {
    &&& plan.contract == WgcOneFrameProbeContract::spec_guarded_one_frame(request.frame_timeout_ms)
    &&& plan.diagnostics.api_probe == api_probe
    &&& plan.diagnostics.missing_requirements@ == plan.contract.spec_missing_requirements(
        api_probe.is_supported,
    )
    &&& plan.diagnostics.next_stage == Some(WgcContractStage::Device)
    &&& if !request.explicit_opt_in {
        &&& plan.status == WgcOneFrameProbeStatus::Disabled
        &&& !plan.should_attempt_probe
        &&& plan.fallback == WgcOneFrameProbeFallback::ExistingScreenshotPath
        &&& plan.error is None
        &&& plan.reason@
            == "WGC one-frame probe is disabled by default; keep using the existing screenshot path."@
    } else if request.frame_timeout_ms == 0 {
        &&& plan.status == WgcOneFrameProbeStatus::InvalidRequest
        &&& !plan.should_attempt_probe
        &&& plan.fallback == WgcOneFrameProbeFallback::ExistingScreenshotPath
        &&& plan.error == Some(WgcOneFrameProbeError::InvalidFrameTimeoutMs { timeout_ms: 0 })
        &&& plan.reason@
            == "WGC one-frame probe needs a positive frame timeout before it can be scheduled."@
    } else if request.allow_real_wgc_api && !api_probe.is_supported {
        &&& plan.status == WgcOneFrameProbeStatus::FallbackPlanned
        &&& !plan.should_attempt_probe
        &&& plan.fallback == WgcOneFrameProbeFallback::DesktopDuplicationPlaceholder
        &&& plan.error matches Some(WgcOneFrameProbeError::NativeApiUnavailable { reason })
            && reason@ == api_fallback_reason(api_probe)
        &&& plan.reason@ == "Native WGC support is unavailable; use fallback capture."@
    } else if request.allow_real_wgc_api {
        &&& plan.status == WgcOneFrameProbeStatus::ProbeReady
        &&& plan.should_attempt_probe
        &&& plan.fallback == WgcOneFrameProbeFallback::DesktopDuplicationPlaceholder
        &&& plan.error is None
        &&& plan.reason@
            == "Native WGC API support is present; framepool/session wiring can attempt a guarded one-frame probe."@
    } else {
        &&& plan.status == WgcOneFrameProbeStatus::GuardedDiagnosticsReady
        &&& !plan.should_attempt_probe
        &&& plan.fallback == WgcOneFrameProbeFallback::ExistingScreenshotPath
        &&& plan.error == Some(
            WgcOneFrameProbeError::ContractNotReady {
                requirement: plan.diagnostics.missing_requirements@[0],
            },
        )
        &&& plan.reason@
            == "WGC one-frame probe diagnostics resolved device/framepool/session contracts; real API calls remain blocked until guarded opt-in."@
    }
}

/// The API probe a request leads to: the platform probe only when real API calls are allowed.
pub open spec fn is_api_probe_for(api_probe: WgcNativeApiProbe, request: WgcOneFrameProbeRequest) -> bool {
    if request.allow_real_wgc_api {
        &&& !api_probe.is_windows
        &&& !api_probe.is_supported
        &&& api_probe.reason matches Some(reason) && reason@
            == "Windows Graphics Capture requires Windows"@
    } else {
        &&& api_probe.is_windows
        &&& !api_probe.is_supported
        &&& api_probe.reason matches Some(reason) && reason@
            == "WGC API support probe skipped until guarded opt-in"@
    }
}

/// The plan for a request once the API question has been answered.
fn plan_for_probe(request: WgcOneFrameProbeRequest, api_probe: WgcNativeApiProbe) -> (r:
    WgcOneFrameProbePlan)
    ensures
        is_plan_for(r, request, api_probe),
{
    let contract = WgcOneFrameProbeContract::guarded_one_frame(request.frame_timeout_ms);
    let diagnostics = WgcOneFrameProbeDiagnostics::from_contract(contract, api_probe.duplicate());
    if !contract.validates_no_default_enable() {
        return WgcOneFrameProbePlan::fallback(
            contract,
            diagnostics,
            WgcOneFrameProbeStatus::InvalidRequest,
            WgcOneFrameProbeFallback::ExistingScreenshotPath,
            Some(WgcOneFrameProbeError::DefaultEnableRejected),
            String::from_str("WGC one-frame probe contract rejected a default-enabled configuration."),
        );
    }
    if !request.explicit_opt_in {
        return WgcOneFrameProbePlan::fallback(
            contract,
            diagnostics,
            WgcOneFrameProbeStatus::Disabled,
            WgcOneFrameProbeFallback::ExistingScreenshotPath,
            None,
            String::from_str(
                "WGC one-frame probe is disabled by default; keep using the existing screenshot path.",
            ),
        );
    }
    if request.frame_timeout_ms == 0 {
        return WgcOneFrameProbePlan::fallback(
            contract,
            diagnostics,
            WgcOneFrameProbeStatus::InvalidRequest,
            WgcOneFrameProbeFallback::ExistingScreenshotPath,
            Some(WgcOneFrameProbeError::InvalidFrameTimeoutMs { timeout_ms: request.frame_timeout_ms }),
            String::from_str(
                "WGC one-frame probe needs a positive frame timeout before it can be scheduled.",
            ),
        );
    }
    if request.allow_real_wgc_api {
        if !api_probe.is_supported {
            return WgcOneFrameProbePlan::fallback(
                contract,
                diagnostics,
                WgcOneFrameProbeStatus::FallbackPlanned,
                WgcOneFrameProbeFallback::DesktopDuplicationPlaceholder,
                Some(api_probe.fallback_error()),
                String::from_str("Native WGC support is unavailable; use fallback capture."),
            );
        }
        return WgcOneFrameProbePlan {
            contract,
            status: WgcOneFrameProbeStatus::ProbeReady,
            should_attempt_probe: true,
            fallback: WgcOneFrameProbeFallback::DesktopDuplicationPlaceholder,
            error: None,
            diagnostics,
            reason: String::from_str(
                "Native WGC API support is present; framepool/session wiring can attempt a guarded one-frame probe.",
            ),
        };
    }
    let error = diagnostics.first_contract_error();
    WgcOneFrameProbePlan::fallback(
        contract,
        diagnostics,
        WgcOneFrameProbeStatus::GuardedDiagnosticsReady,
        WgcOneFrameProbeFallback::ExistingScreenshotPath,
        error,
        String::from_str(
            "WGC one-frame probe diagnostics resolved device/framepool/session contracts; real API calls remain blocked until guarded opt-in.",
        ),
    )
}

/// Resolves a request: the platform probe answers only when real API calls are allowed.
pub fn resolve_wgc_one_frame_probe_plan(request: WgcOneFrameProbeRequest) -> (r: WgcOneFrameProbePlan)
    ensures
        is_api_probe_for(r.diagnostics.api_probe, request),
        is_plan_for(r, request, r.diagnostics.api_probe),
{
    let api_probe = if request.allow_real_wgc_api {
        probe_wgc_native_api_support()
    } else {
        WgcNativeApiProbe::unavailable(
            true,
            String::from_str("WGC API support probe skipped until guarded opt-in"),
        )
    };
    plan_for_probe(request, api_probe)
}

pub fn default_wgc_one_frame_probe_plan() -> (r: WgcOneFrameProbePlan)
    ensures
        is_api_probe_for(r.diagnostics.api_probe, WgcOneFrameProbeRequest {
            explicit_opt_in: false,
            allow_real_wgc_api: false,
            frame_timeout_ms: 0,
        }),
        is_plan_for(r, WgcOneFrameProbeRequest {
            explicit_opt_in: false,
            allow_real_wgc_api: false,
            frame_timeout_ms: 0,
        }, r.diagnostics.api_probe),
{
    resolve_wgc_one_frame_probe_plan(WgcOneFrameProbeRequest::disabled())
}

pub fn planned_wgc_one_frame_smoke_report() -> (r: WgcOneFrameSmokeReport)
    ensures
        r.status == crate::wgc_contract::WgcOneFrameSmokeStatus::NotRun,
        r.plan_status == WgcOneFrameProbeStatus::Disabled,
        !r.attempted_real_wgc_api && !r.frame_capture_attempted && !r.frame_capture_confirmed,
        !r.should_attempt_probe,
        r.fallback == WgcOneFrameProbeFallback::ExistingScreenshotPath,
        r.error is None,
{
    WgcOneFrameSmokeReport::from_plan(default_wgc_one_frame_probe_plan())
}

pub fn resolve_wgc_one_frame_smoke_report(request: WgcOneFrameProbeRequest) -> (r:
    WgcOneFrameSmokeReport)
    ensures
        exists|plan: WgcOneFrameProbePlan|
            {
                &&& is_api_probe_for(plan.diagnostics.api_probe, request)
                &&& is_plan_for(plan, request, plan.diagnostics.api_probe)
                &&& r.status == smoke_status_for(plan.status, plan.should_attempt_probe)
                &&& r.plan_status == plan.status
                &&& r.should_attempt_probe == plan.should_attempt_probe
                &&& r.fallback == plan.fallback
                &&& r.error == plan.error
                &&& r.reason == plan.reason
            },
        !r.attempted_real_wgc_api && !r.frame_capture_attempted && !r.frame_capture_confirmed,
{
    let plan = resolve_wgc_one_frame_probe_plan(request);
    let ghost g = plan;
    let r = WgcOneFrameSmokeReport::from_plan(plan);
    proof {
        assert(is_plan_for(g, request, g.diagnostics.api_probe));
    }
    r
}

/// The plan when it carries no error, else that error.
pub fn run_wgc_one_frame_probe_placeholder(request: WgcOneFrameProbeRequest) -> (r: Result<
    WgcOneFrameProbePlan,
    WgcOneFrameProbeError,
>)
    ensures
        match r {
            Ok(plan) => plan.error is None && is_api_probe_for(plan.diagnostics.api_probe, request)
                && is_plan_for(plan, request, plan.diagnostics.api_probe),
            Err(error) => exists|plan: WgcOneFrameProbePlan|
                {
                    &&& is_api_probe_for(plan.diagnostics.api_probe, request)
                    &&& is_plan_for(plan, request, plan.diagnostics.api_probe)
                    &&& plan.error == Some(error)
                },
        },
{
    let plan = resolve_wgc_one_frame_probe_plan(request);
    match &plan.error {
        Some(error) => {
            let e = error.duplicate();
            proof {
                assert(plan.error == Some(e));
            }
            Err(e)
        },
        None => Ok(plan),
    }
}

} // verus!

verus! {

/// A probe is attempted only when the request opts in explicitly, allows real API
/// calls, sets a positive timeout, and the API answered that it is supported.
pub proof fn probe_attempt_requires_opt_in(
    plan: WgcOneFrameProbePlan,
    request: WgcOneFrameProbeRequest,
    api_probe: WgcNativeApiProbe,
)
    requires
        is_plan_for(plan, request, api_probe),
    ensures
        plan.should_attempt_probe ==> request.explicit_opt_in && request.allow_real_wgc_api
            && request.frame_timeout_ms > 0 && api_probe.is_supported,
        plan.should_attempt_probe <==> plan.status == WgcOneFrameProbeStatus::ProbeReady,
{
}

/// Off Windows no request, whatever it asks, leads to a probe attempt.
pub proof fn resolved_plans_never_attempt_off_windows(
    plan: WgcOneFrameProbePlan,
    request: WgcOneFrameProbeRequest,
)
    requires
        is_api_probe_for(plan.diagnostics.api_probe, request),
        is_plan_for(plan, request, plan.diagnostics.api_probe),
    ensures
        !plan.should_attempt_probe,
        plan.status != WgcOneFrameProbeStatus::ProbeReady,
{
}

} // verus!
