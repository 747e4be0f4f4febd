//! The guarded one-frame Windows Graphics Capture session: its request checks, its
//! report and the evidence it gives about the selected monitor frame.
use vstd::prelude::*;

use crate::capture::MonitorCaptureBounds;
use crate::clock::{elapsed_ms, instant_now};
use crate::d3d11_frame::D3d11TextureFrame;
use crate::output::SelectedImageContract;
use crate::text::{decimal, push_i64, push_u64, signed_decimal};
use crate::wgc_contract::{
    WgcNativeApiProbe, WgcOneFrameProbeContract, WgcOneFrameProbeDiagnostics, WgcOneFrameProbeRequest,
};
use crate::wgc_probe::{default_wgc_one_frame_probe_contract, probe_wgc_native_api_support};
use crate::wgc_target::{spec_target_basics, validate_wgc_capture_target_basics, WgcCaptureTarget};

verus! {

/// What a one-frame session is asked to capture, and how.
#[derive(Debug, Clone, Copy, PartialEq, Eq, Structural)]
pub struct WgcOneFrameSessionOptions {
    pub request: WgcOneFrameProbeRequest,
    pub target: WgcCaptureTarget,
    pub width: u32,
    pub height: u32,
    pub requested_bounds: Option<MonitorCaptureBounds>,
    pub target_bounds: Option<MonitorCaptureBounds>,
    pub include_cursor: bool,
    pub require_border: bool,
    pub buffer_count: i32,
}

pub open spec fn spec_default_session_options(
    target: WgcCaptureTarget,
    width: u32,
    height: u32,
) -> WgcOneFrameSessionOptions {
    WgcOneFrameSessionOptions {
        request: WgcOneFrameProbeRequest {
            explicit_opt_in: false,
            allow_real_wgc_api: false,
            frame_timeout_ms: 0,
        },
        target,
        width,
        height,
        requested_bounds: None,
        target_bounds: None,
        include_cursor: false,
        require_border: false,
        buffer_count: 1,
    }
}

/// Options that do not opt in: a session built from them never reaches the platform.
pub fn default_wgc_one_frame_session_options(target: WgcCaptureTarget, width: u32, height: u32) -> (r:
    WgcOneFrameSessionOptions)
    ensures
        r == spec_default_session_options(target, width, height),
{
    WgcOneFrameSessionOptions {
        request: WgcOneFrameProbeRequest::disabled(),
        target,
        width,
        height,
        requested_bounds: None,
        target_bounds: None,
        include_cursor: false,
        require_border: false,
        buffer_count: 1,
    }
}

/// The requested rectangle lies inside the target rectangle (never, when an edge of
/// either overflows `i32`).
pub open spec fn spec_selected_bounds_within_target(
    requested: MonitorCaptureBounds,
    target: MonitorCaptureBounds,
) -> bool {
    match (requested.spec_right(), requested.spec_bottom(), target.spec_right(), target.spec_bottom()) {
        (Some(rr), Some(rb), Some(tr), Some(tb)) => requested.origin_x >= target.origin_x
            && requested.origin_y >= target.origin_y && rr <= tr && rb <= tb,
        _ => false,
    }
}

fn selected_bounds_within_target(requested: MonitorCaptureBounds, target: MonitorCaptureBounds) -> (r:
    bool)
    ensures
        r == spec_selected_bounds_within_target(requested, target),
{
    let requested_right = match requested.right() {
        Some(v) => v,
        None => {
            return false;
        },
    };
    let requested_bottom = match requested.bottom() {
        Some(v) => v,
        None => {
            return false;
        },
    };
    let target_right = match target.right() {
        Some(v) => v,
        None => {
            return false;
        },
    };
    let target_bottom = match target.bottom() {
        Some(v) => v,
        None => {
            return false;
        },
    };
    requested.origin_x >= target.origin_x && requested.origin_y >= target.origin_y && requested_right
        <= target_right && requested_bottom <= target_bottom
}

/// What a session shows about the monitor frame it captured for a selection.
#[derive(Debug, Clone, PartialEq, Eq)]
pub struct WgcSelectedMonitorFrameEvidence {
    pub diagnostic_only: bool,
    pub requested_bounds_physical: Option<MonitorCaptureBounds>,
    pub target_monitor_bounds_physical: Option<MonitorCaptureBounds>,
    pub framepool_size_source: &'static str,
    pub frame_width: Option<u32>,
    pub frame_height: Option<u32>,
    pub frame_matches_target_monitor_bounds: bool,
    pub selected_crop_within_frame: bool,
    pub selected_png_produced: bool,
    pub readback_bytes_present: bool,
    pub persistent_handle_exposed: bool,
    pub readiness_changed: bool,
}

impl WgcSelectedMonitorFrameEvidence {
    /// The evidence a session with these observations gives: the frame matches the target
    /// monitor when both sizes are known and equal, and the crop lies within the frame when
    /// both rectangles are known and the requested one lies inside the target.
    pub open spec fn is_from_session(
        self,
        requested_bounds: Option<MonitorCaptureBounds>,
        target_bounds: Option<MonitorCaptureBounds>,
        frame_width: Option<u32>,
        frame_height: Option<u32>,
        readback_bytes_present: bool,
        selected_png_produced: bool,
    ) -> bool {
        &&& self.diagnostic_only
        &&& self.requested_bounds_physical == requested_bounds
        &&& self.target_monitor_bounds_physical == target_bounds
        &&& self.framepool_size_source@ == "target-monitor-bounds"@
        &&& self.frame_width == frame_width
        &&& self.frame_height == frame_height
        &&& self.frame_matches_target_monitor_bounds == match (target_bounds, frame_width, frame_height) {
            (Some(target), Some(width), Some(height)) => target.width == width && target.height == height,
            _ => false,
        }
        &&& self.selected_crop_within_frame == match (requested_bounds, target_bounds) {
            (Some(requested), Some(target)) => spec_selected_bounds_within_target(requested, target),
            _ => false,
        }
        &&& self.selected_png_produced == selected_png_produced
        &&& self.readback_bytes_present == readback_bytes_present
        &&& !self.persistent_handle_exposed
        &&& !self.readiness_changed
    }

    pub fn from_session(
        requested_bounds: Option<MonitorCaptureBounds>,
        target_bounds: Option<MonitorCaptureBounds>,
        frame_width: Option<u32>,
        frame_height: Option<u32>,
        readback_bytes_present: bool,
        selected_png_produced: bool,
    ) -> (r: Self)
        ensures
            r.is_from_session(
                requested_bounds,
                target_bounds,
                frame_width,
                frame_height,
                readback_bytes_present,
                selected_png_produced,
            ),
    {
        let frame_matches_target_monitor_bounds = match (target_bounds, frame_width, frame_height) {
            (Some(target), Some(width), Some(height)) => target.width == width && target.height
                == height,
            _ => false,
        };
        let selected_crop_within_frame = match (requested_bounds, target_bounds) {
            (Some(requested), Some(target)) => selected_bounds_within_target(requested, target),
            _ => false,
        };
        Self {
            diagnostic_only: true,
            requested_bounds_physical: requested_bounds,
            target_monitor_bounds_physical: target_bounds,
            framepool_size_source: "target-monitor-bounds",
            frame_width,
            frame_height,
            frame_matches_target_monitor_bounds,
            selected_crop_within_frame,
            selected_png_produced,
            readback_bytes_present,
            persistent_handle_exposed: false,
            readiness_changed: false,
        }
    }
}

/// How far a session got.
#[derive(Debug, Clone, Copy, PartialEq, Eq, Structural)]
pub enum WgcSessionState {
    Disabled,
    ApiUnavailable,
    InvalidRequest,
    DeviceReady,
    CaptureItemReady,
    FramePoolReady,
    SessionReady,
    CaptureStarted,
    FrameAcquired,
    TimedOut,
    Failed,
}

impl WgcSessionState {
    pub open spec fn spec_as_str(self) -> Seq<char> {
        match self {
            WgcSessionState::Disabled => "disabled"@,
            WgcSessionState::ApiUnavailable => "api-unavailable"@,
            WgcSessionState::InvalidRequest => "invalid-request"@,
            WgcSessionState::DeviceReady => "device-ready"@,
            WgcSessionState::CaptureItemReady => "capture-item-ready"@,
            WgcSessionState::FramePoolReady => "framepool-ready"@,
            WgcSessionState::SessionReady => "session-ready"@,
            WgcSessionState::CaptureStarted => "capture-started"@,
            WgcSessionState::FrameAcquired => "frame-acquired"@,
            WgcSessionState::TimedOut => "timed-out"@,
            WgcSessionState::Failed => "failed"@,
        }
    }

    pub fn as_str(self) -> (r: &'static str)
        ensures
            r@ == self.spec_as_str(),
    {
        match self {
            WgcSessionState::Disabled => "disabled",
            WgcSessionState::ApiUnavailable => "api-unavailable",
            WgcSessionState::InvalidRequest => "invalid-request",
            WgcSessionState::DeviceReady => "device-ready",
            WgcSessionState::CaptureItemReady => "capture-item-ready",
            WgcSessionState::FramePoolReady => "framepool-ready",
            WgcSessionState::SessionReady => "session-ready",
            WgcSessionState::CaptureStarted => "capture-started",
            WgcSessionState::FrameAcquired => "frame-acquired",
            WgcSessionState::TimedOut => "timed-out",
            WgcSessionState::Failed => "failed",
        }
    }
}

/// Why a session stopped.
#[derive(Debug, Clone, PartialEq, Eq)]
pub enum WgcSessionError {
    ExplicitOptInRequired,
    RealApiNotAllowed,
    NativeApiUnavailable { reason: String },
    InvalidFrameTimeoutMs { timeout_ms: u64 },
    InvalidDimensions { width: u32, height: u32 },
    InvalidBufferCount { buffer_count: i32 },
    InvalidTarget { reason: String },
    UnsupportedPlatform { reason: String },
    DeviceBridge { reason: String },
    CaptureItem { reason: String },
    FramePool { reason: String },
    CaptureSession { reason: String },
    StartCapture { reason: String },
    FrameTimeout { timeout_ms: u64 },
    FrameSurface { reason: String },
    TextureContract { reason: String },
}

impl WgcSessionError {
    pub open spec fn spec_message(&self) -> Seq<char> {
        match self {
            WgcSessionError::ExplicitOptInRequired => "WGC one-frame session requires explicit opt-in"@,
            WgcSessionError::RealApiNotAllowed =>
                "WGC one-frame session real API calls are not allowed"@,
            WgcSessionError::NativeApiUnavailable { reason } => "WGC native API is unavailable: "@
                + reason@,
            WgcSessionError::InvalidFrameTimeoutMs { timeout_ms } =>
                "invalid WGC one-frame session timeout: "@ + decimal(*timeout_ms as nat) + "ms"@,
            WgcSessionError::InvalidDimensions { width, height } => "invalid WGC session dimensions: "@
                + decimal(*width as nat) + "x"@ + decimal(*height as nat),
            WgcSessionError::InvalidBufferCount { buffer_count } =>
                "invalid WGC framepool buffer count: "@ + signed_decimal(*buffer_count as int),
            WgcSessionError::InvalidTarget { reason } => "invalid WGC target: "@ + reason@,
            WgcSessionError::UnsupportedPlatform { reason } => reason@,
            WgcSessionError::DeviceBridge { reason } => "WGC device bridge failed: "@ + reason@,
            WgcSessionError::CaptureItem { reason } => "WGC capture item failed: "@ + reason@,
            WgcSessionError::FramePool { reason } => "WGC framepool failed: "@ + reason@,
            WgcSessionError::CaptureSession { reason } => "WGC capture session failed: "@ + reason@,
            WgcSessionError::StartCapture { reason } => "WGC StartCapture failed: "@ + reason@,
            WgcSessionError::FrameTimeout { timeout_ms } => "WGC one-frame session timed out after "@
                + decimal(*timeout_ms as nat) + "ms"@,
            WgcSessionError::FrameSurface { reason } => "WGC frame surface failed: "@ + reason@,
            WgcSessionError::TextureContract { reason } => "WGC texture contract failed: "@ + reason@,
        }
    }

    pub fn to_string(&self) -> (r: String)
        ensures
            r@ == self.spec_message(),
    {
        let mut s = String::new();
        match self {
            WgcSessionError::ExplicitOptInRequired => {
                s.append("WGC one-frame session requires explicit opt-in");
            },
            WgcSessionError::RealApiNotAllowed => {
                s.append("WGC one-frame session real API calls are not allowed");
            },
            WgcSessionError::NativeApiUnavailable { reason } => {
                s.append("WGC native API is unavailable: ");
                s.append(reason.as_str());
            },
            WgcSessionError::InvalidFrameTimeoutMs { timeout_ms } => {
                s.append("invalid WGC one-frame session timeout: ");
                push_u64(&mut s, *timeout_ms);
                s.append("ms");
            },
            WgcSessionError::InvalidDimensions { width, height } => {
                s.append("invalid WGC session dimensions: ");
                push_u64(&mut s, *width as u64);
                s.append("x");
                push_u64(&mut s, *height as u64);
            },
            WgcSessionError::InvalidBufferCount { buffer_count } => {
                s.append("invalid WGC framepool buffer count: ");
                push_i64(&mut s, *buffer_count as i64);
            },
            WgcSessionError::InvalidTarget { reason } => {
                s.append("invalid WGC target: ");
                s.append(reason.as_str());
            },
            WgcSessionError::UnsupportedPlatform { reason } => {
                s.append(reason.as_str());
            },
            WgcSessionError::DeviceBridge { reason } => {
                s.append("WGC device bridge failed: ");
                s.append(reason.as_str());
            },
            WgcSessionError::CaptureItem { reason } => {
                s.append("WGC capture item failed: ");
                s.append(reason.as_str());
            },
            WgcSessionError::FramePool { reason } => {
                s.append("WGC framepool failed: ");
                s.append(reason.as_str());
            },
            WgcSessionError::CaptureSession { reason } => {
                s.append("WGC capture session failed: ");
                s.append(reason.as_str());
            },
            WgcSessionError::StartCapture { reason } => {
                s.append("WGC StartCapture failed: ");
                s.append(reason.as_str());
            },
            WgcSessionError::FrameTimeout { timeout_ms } => {
                s.append("WGC one-frame session timed out after ");
                push_u64(&mut s, *timeout_ms);
                s.append("ms");
            },
            WgcSessionError::FrameSurface { reason } => {
                s.append("WGC frame surface failed: ");
                s.append(reason.as_str());
            },
            WgcSessionError::TextureContract { reason } => {
                s.append("WGC texture contract failed: ");
                s.append(reason.as_str());
            },
        }
        proof {
            assert(s@ =~= self.spec_message());
        }
        s
    }
}

/// The state a session reports when its request was refused before any platform call.
pub open spec fn spec_state_for_validation_error(error: WgcSessionError) -> WgcSessionState {
    match error {
        WgcSessionError::ExplicitOptInRequired | WgcSessionError::RealApiNotAllowed =>
            WgcSessionState::Disabled,
        WgcSessionError::NativeApiUnavailable { .. } => WgcSessionState::ApiUnavailable,
        WgcSessionError::InvalidFrameTimeoutMs { .. } | WgcSessionError::InvalidDimensions { .. }
        | WgcSessionError::InvalidBufferCount { .. } | WgcSessionError::InvalidTarget { .. } =>
            WgcSessionState::InvalidRequest,
        _ => WgcSessionState::Failed,
    }
}

pub fn state_for_validation_error(error: &WgcSessionError) -> (r: WgcSessionState)
    ensures
        r == spec_state_for_validation_error(*error),
{
    match error {
        WgcSessionError::ExplicitOptInRequired | WgcSessionError::RealApiNotAllowed =>
            WgcSessionState::Disabled,
        WgcSessionError::NativeApiUnavailable { .. } => WgcSessionState::ApiUnavailable,
        WgcSessionError::InvalidFrameTimeoutMs { .. } | WgcSessionError::InvalidDimensions { .. }
        | WgcSessionError::InvalidBufferCount { .. } | WgcSessionError::InvalidTarget { .. } =>
            WgcSessionState::InvalidRequest,
        _ => WgcSessionState::Failed,
    }
}

/// The last stage a session reached before the platform call that failed with `error`.
pub open spec fn spec_runtime_state_for_error(error: WgcSessionError) -> WgcSessionState {
    match error {
        WgcSessionError::FrameTimeout { .. } => WgcSessionState::TimedOut,
        WgcSessionError::DeviceBridge { .. } => WgcSessionState::Failed,
        WgcSessionError::CaptureItem { .. } => WgcSessionState::DeviceReady,
        WgcSessionError::FramePool { .. } => WgcSessionState::CaptureItemReady,
        WgcSessionError::CaptureSession { .. } => WgcSessionState::FramePoolReady,
        WgcSessionError::StartCapture { .. } => WgcSessionState::SessionReady,
        WgcSessionError::FrameSurface { .. } | WgcSessionError::TextureContract { .. } =>
            WgcSessionState::CaptureStarted,
        _ => WgcSessionState::Failed,
    }
}

pub fn runtime_state_for_error(error: &WgcSessionError) -> (r: WgcSessionState)
    ensures
        r == spec_runtime_state_for_error(*error),
{
    match error {
        WgcSessionError::FrameTimeout { .. } => WgcSessionState::TimedOut,
        WgcSessionError::DeviceBridge { .. } => WgcSessionState::Failed,
        WgcSessionError::CaptureItem { .. } => WgcSessionState::DeviceReady,
        WgcSessionError::FramePool { .. } => WgcSessionState::CaptureItemReady,
        WgcSessionError::CaptureSession { .. } => WgcSessionState::FramePoolReady,
        WgcSessionError::StartCapture { .. } => WgcSessionState::SessionReady,
        WgcSessionError::FrameSurface { .. } | WgcSessionError::TextureContract { .. } =>
            WgcSessionState::CaptureStarted,
        _ => WgcSessionState::Failed,
    }
}

/// The request passes every check that needs no platform call.
pub open spec fn spec_request_basics_pass(options: WgcOneFrameSessionOptions) -> bool {
    &&& options.request.explicit_opt_in
    &&& options.request.allow_real_wgc_api
    &&& options.request.frame_timeout_ms != 0
    &&& options.width != 0 && options.height != 0
    &&& options.buffer_count >= 1
    &&& spec_target_basics(options.target) is Ok
}

/// `error` is the first local check that `options` fails.
pub open spec fn spec_request_basics_error(options: WgcOneFrameSessionOptions, error: WgcSessionError) -> bool {
    if !options.request.explicit_opt_in {
        error == WgcSessionError::ExplicitOptInRequired
    } else if !options.request.allow_real_wgc_api {
        error == WgcSessionError::RealApiNotAllowed
    } else if options.request.frame_timeout_ms == 0 {
        error == (WgcSessionError::InvalidFrameTimeoutMs { timeout_ms: 0 })
    } else if options.width == 0 || options.height == 0 {
        error == (WgcSessionError::InvalidDimensions { width: options.width, height: options.height })
    } else if options.buffer_count < 1 {
        error == (WgcSessionError::InvalidBufferCount { buffer_count: options.buffer_count })
    } else {
        match spec_target_basics(options.target) {
            Err(target_error) => error matches WgcSessionError::InvalidTarget { reason } && reason@
                == target_error.spec_message(),
            Ok(_) => false,
        }
    }
}

pub fn validate_wgc_session_request_basics(options: &WgcOneFrameSessionOptions) -> (r: Result<
    (),
    WgcSessionError,
>)
    ensures
        r is Ok <==> spec_request_basics_pass(*options),
        r matches Err(e) ==> spec_request_basics_error(*options, e),
{
    if !options.request.explicit_opt_in {
        return Err(WgcSessionError::ExplicitOptInRequired);
    }
    if !options.request.allow_real_wgc_api {
        return Err(WgcSessionError::RealApiNotAllowed);
    }
    if options.request.frame_timeout_ms == 0 {
        return Err(WgcSessionError::InvalidFrameTimeoutMs { timeout_ms: options.request.frame_timeout_ms });
    }
    if options.width == 0 || options.height == 0 {
        return Err(WgcSessionError::InvalidDimensions { width: options.width, height: options.height });
    }
    if options.buffer_count < 1 {
        return Err(WgcSessionError::InvalidBufferCount { buffer_count: options.buffer_count });
    }
    match validate_wgc_capture_target_basics(options.target) {
        Err(error) => Err(WgcSessionError::InvalidTarget { reason: error.to_string() }),
        Ok(_) => Ok(()),
    }
}

/// The reason an unsupported API probe gives, or a stock one.
pub open spec fn spec_api_unavailable_reason(api_probe: WgcNativeApiProbe) -> Seq<char> {
    match api_probe.reason {
        Some(reason) => reason@,
        None => "Windows Graphics Capture support probe returned false"@,
    }
}

pub fn validate_wgc_session_api_support(api_probe: &WgcNativeApiProbe) -> (r: Result<(), WgcSessionError>)
    ensures
        r is Ok <==> api_probe.is_supported,
        r matches Err(e) ==> e matches WgcSessionError::NativeApiUnavailable { reason } && reason@
            == spec_api_unavailable_reason(*api_probe),
{
    if !api_probe.is_supported {
        let reason = match &api_probe.reason {
            Some(reason) => reason.clone(),
            None => String::from_str("Windows Graphics Capture support probe returned false"),
        };
        return Err(WgcSessionError::NativeApiUnavailable { reason });
    }
    Ok(())
}

/// What a one-frame session did and what it got.
#[derive(Debug, Clone, PartialEq, Eq)]
pub struct WgcOneFrameSessionReport {
    pub state: WgcSessionState,
    pub attempted_real_wgc_api: bool,
    pub created_device: bool,
    pub created_item: bool,
    pub created_frame_pool: bool,
    pub created_session: bool,
    pub started_capture: bool,
    pub acquired_frame: bool,
    pub frame_id: u64,
    pub width: u32,
    pub height: u32,
    pub elapsed_ms: u64,
    pub diagnostics: WgcOneFrameProbeDiagnostics,
    pub selected_monitor_frame_evidence: WgcSelectedMonitorFrameEvidence,
    pub frame: Option<D3d11TextureFrame>,
    pub selected_image: Option<SelectedImageContract>,
    pub error: Option<WgcSessionError>,
}

impl WgcOneFrameSessionReport {
    /// The report of a session that stopped in `state` with `error`, having created
    /// nothing; the evidence holds only the two rectangles of the options.
    pub open spec fn is_failure(
        self,
        state: WgcSessionState,
        attempted_real_wgc_api: bool,
        options: WgcOneFrameSessionOptions,
    ) -> bool {
        &&& self.state == state
        &&& self.attempted_real_wgc_api == attempted_real_wgc_api
        &&& !self.created_device && !self.created_item && !self.created_frame_pool
        &&& !self.created_session && !self.started_capture && !self.acquired_frame
        &&& self.frame_id == 0
        &&& self.width == options.width && self.height == options.height
        &&& self.selected_monitor_frame_evidence.is_from_session(
            options.requested_bounds,
            options.target_bounds,
            None,
            None,
            false,
            false,
        )
        &&& self.frame is None && self.selected_image is None
        &&& self.error is Some
    }

    pub fn failed(
        state: WgcSessionState,
        attempted_real_wgc_api: bool,
        options: &WgcOneFrameSessionOptions,
        elapsed_ms: u64,
        diagnostics: WgcOneFrameProbeDiagnostics,
        error: WgcSessionError,
    ) -> (r: Self)
        ensures
            r.is_failure(state, attempted_real_wgc_api, *options),
            r.elapsed_ms == elapsed_ms,
            r.diagnostics == diagnostics,
            r.error == Some(error),
    {
        Self {
            state,
            attempted_real_wgc_api,
            created_device: false,
            created_item: false,
            created_frame_pool: false,
            created_session: false,
            started_capture: false,
            acquired_frame: false,
            frame_id: 0,
            width: options.width,
            height: options.height,
            elapsed_ms,
            diagnostics,
            selected_monitor_frame_evidence: WgcSelectedMonitorFrameEvidence::from_session(
                options.requested_bounds,
                options.target_bounds,
                None,
                None,
                false,
                false,
            ),
            frame: None,
            selected_image: None,
            error: Some(error),
        }
    }

    /// The report of a session that acquired `frame`, with the selected image read back
    /// from it when there is one.
    pub fn frame_acquired(
        options: &WgcOneFrameSessionOptions,
        frame: D3d11TextureFrame,
        selected_image: Option<SelectedImageContract>,
        elapsed_ms: u64,
        diagnostics: WgcOneFrameProbeDiagnostics,
    ) -> (r: Self)
        ensures
            r.state == WgcSessionState::FrameAcquired,
            r.attempted_real_wgc_api && r.created_device && r.created_item && r.created_frame_pool,
            r.created_session && r.started_capture && r.acquired_frame,
            r.frame_id == frame.metadata.frame_id,
            r.width == frame.metadata.width && r.height == frame.metadata.height,
            r.elapsed_ms == elapsed_ms,
            r.diagnostics == diagnostics,
            r.selected_monitor_frame_evidence.is_from_session(
                options.requested_bounds,
                options.target_bounds,
                Some(frame.metadata.width),
                Some(frame.metadata.height),
                frame.readback_bytes is Some || selected_image is Some,
                match selected_image {
                    Some(image) => image.spec_is_selected_only_png(),
                    None => false,
                },
            ),
            r.frame == Some(frame),
            r.selected_image == selected_image,
            r.error is None,
    {
        let readback_present = frame.readback_bytes.is_some() || selected_image.is_some();
        let png_produced = match &selected_image {
            Some(image) => image.is_selected_only_png(),
            None => false,
        };
        let evidence = WgcSelectedMonitorFrameEvidence::from_session(
            options.requested_bounds,
            options.target_bounds,
            Some(frame.metadata.width),
            Some(frame.metadata.height),
            readback_present,
            png_produced,
        );
        Self {
            state: WgcSessionState::FrameAcquired,
            attempted_real_wgc_api: true,
            created_device: true,
            created_item: true,
            created_frame_pool: true,
            created_session: true,
            started_capture: true,
            acquired_frame: true,
            frame_id: frame.metadata.frame_id,
            width: frame.metadata.width,
            height: frame.metadata.height,
            elapsed_ms,
            diagnostics,
            selected_monitor_frame_evidence: evidence,
            frame: Some(frame),
            selected_image,
            error: None,
        }
    }
}

/// The diagnostics built from the default one-frame contract and `api_probe`.
pub open spec fn is_default_contract_diagnostics(
    diagnostics: WgcOneFrameProbeDiagnostics,
    api_probe: WgcNativeApiProbe,
) -> bool {
    &&& diagnostics.api_probe == api_probe
    &&& diagnostics.missing_requirements@ == WgcOneFrameProbeContract::spec_guarded_one_frame(
        0,
    ).spec_missing_requirements(api_probe.is_supported)
}

/// Runs a one-frame session as far as it is allowed to go.
///
/// A request that fails a local check stops with that error before the platform is even
/// probed. Past the checks the platform is probed; this build offers no Windows Graphics
/// Capture, so the session stops there as unavailable, having called no capture API.
pub fn guarded_wgc_one_frame_session(options: WgcOneFrameSessionOptions) -> (r:
    WgcOneFrameSessionReport)
    ensures
        !spec_request_basics_pass(options) ==> {
            &&& r.error matches Some(e) && spec_request_basics_error(options, e)
            &&& r.is_failure(spec_state_for_validation_error(r.error->0), false, options)
            &&& r.diagnostics.api_probe.is_windows && !r.diagnostics.api_probe.is_supported
            &&& r.diagnostics.api_probe.reason matches Some(reason) && reason@
                == "WGC session API support probe skipped until local request validation passes"@
            &&& r.diagnostics.missing_requirements@ == WgcOneFrameProbeContract::spec_guarded_one_frame(
                0,
            ).spec_missing_requirements(false)
        },
        spec_request_basics_pass(options) ==> {
            &&& r.is_failure(WgcSessionState::ApiUnavailable, false, options)
            &&& r.error matches Some(WgcSessionError::NativeApiUnavailable { reason }) && reason@
                == "Windows Graphics Capture requires Windows"@
            &&& !r.diagnostics.api_probe.is_windows && !r.diagnostics.api_probe.is_supported
            &&& r.diagnostics.missing_requirements@ == WgcOneFrameProbeContract::spec_guarded_one_frame(
                0,
            ).spec_missing_requirements(false)
        },
{
    let started_at = instant_now();
    match validate_wgc_session_request_basics(&options) {
        Err(error) => {
            let diagnostics = WgcOneFrameProbeDiagnostics::from_contract(
                default_wgc_one_frame_probe_contract(),
                WgcNativeApiProbe::unavailable(
                    true,
                    String::from_str(
                        "WGC session API support probe skipped until local request validation passes",
                    ),
                ),
            );
            let state = state_for_validation_error(&error);
            return WgcOneFrameSessionReport::failed(
                state,
                false,
                &options,
                elapsed_ms(&started_at),
                diagnostics,
                error,
            );
        },
        Ok(_) => {},
    }
    let api_probe = probe_wgc_native_api_support();
    let diagnostics = WgcOneFrameProbeDiagnostics::from_contract(
        default_wgc_one_frame_probe_contract(),
        api_probe.duplicate(),
    );
    match validate_wgc_session_api_support(&api_probe) {
        Ok(_) => run_guarded_wgc_one_frame_session(&options, diagnostics, &started_at),
        Err(error) => {
            let state = state_for_validation_error(&error);
            WgcOneFrameSessionReport::failed(
                state,
                false,
                &options,
                elapsed_ms(&started_at),
                diagnostics,
                error,
            )
        },
    }
}

/// Past every check, this build has no capture API to call: the session stops as
/// unavailable, having attempted the platform.
fn run_guarded_wgc_one_frame_session(
    options: &WgcOneFrameSessionOptions,
    diagnostics: WgcOneFrameProbeDiagnostics,
    started_at: &std::time::Instant,
) -> (r: WgcOneFrameSessionReport)
    ensures
        r.is_failure(WgcSessionState::ApiUnavailable, true, *options),
        r.diagnostics == diagnostics,
        r.error matches Some(WgcSessionError::UnsupportedPlatform { reason }) && reason@
            == "WGC one-frame session requires Windows"@,
{
    WgcOneFrameSessionReport::failed(
        WgcSessionState::ApiUnavailable,
        true,
        options,
        elapsed_ms(started_at),
        diagnostics,
        WgcSessionError::UnsupportedPlatform {
            reason: String::from_str("WGC one-frame session requires Windows"),
        },
    )
}

} // verus!
