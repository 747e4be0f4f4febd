//! Checking what a Windows Graphics Capture session would capture: a monitor or a window.
use vstd::prelude::*;

use crate::capture::MonitorCaptureBounds;
use crate::native_overlay_session::Win32Rect;
use crate::numeric::{clamp_i32, saturating_add_i32};

verus! {

/// The monitor or window a capture item is created for.
#[derive(Debug, Clone, Copy, PartialEq, Eq, Structural)]
pub enum WgcCaptureTarget {
    Monitor { hmonitor: isize },
    Window { hwnd: isize },
}

/// Which kind of handle a target names.
#[derive(Debug, Clone, Copy, PartialEq, Eq, Structural)]
pub enum WgcTargetKind {
    Monitor,
    Window,
}

impl WgcTargetKind {
    pub open spec fn spec_as_str(self) -> Seq<char> {
        match self {
            WgcTargetKind::Monitor => "monitor"@,
            WgcTargetKind::Window => "window"@,
        }
    }

    pub fn as_str(self) -> (r: &'static str)
        ensures
            r@ == self.spec_as_str(),
    {
        match self {
            WgcTargetKind::Monitor => "monitor",
            WgcTargetKind::Window => "window",
        }
    }
}

/// Why a target cannot be captured.
#[derive(Debug, Clone, Copy, PartialEq, Eq, Structural)]
pub enum WgcTargetValidationError {
    UnsupportedPlatform,
    ZeroHandle { kind: WgcTargetKind },
    NotAWindow,
    NotVisible,
    Minimized,
    EmptyBounds,
    MonitorUnavailable,
    MonitorInfoUnavailable,
}

impl WgcTargetValidationError {
    pub open spec fn spec_message(self) -> Seq<char> {
        match self {
            WgcTargetValidationError::UnsupportedPlatform => "WGC target validation requires Windows"@,
            WgcTargetValidationError::ZeroHandle { kind } => kind.spec_as_str()
                + " handle must be non-zero"@,
            WgcTargetValidationError::NotAWindow => "HWND is not a live window"@,
            WgcTargetValidationError::NotVisible => "HWND is not visible"@,
            WgcTargetValidationError::Minimized => "HWND is minimized"@,
            WgcTargetValidationError::EmptyBounds => "target bounds are empty"@,
            WgcTargetValidationError::MonitorUnavailable => "monitor handle is unavailable"@,
            WgcTargetValidationError::MonitorInfoUnavailable => "monitor info is unavailable"@,
        }
    }

    pub fn to_string(self) -> (r: String)
        ensures
            r@ == self.spec_message(),
    {
        let mut s = String::new();
        match self {
            WgcTargetValidationError::UnsupportedPlatform => {
                s.append("WGC target validation requires Windows");
            },
            WgcTargetValidationError::ZeroHandle { kind } => {
                s.append(kind.as_str());
                s.append(" handle must be non-zero");
            },
            WgcTargetValidationError::NotAWindow => {
                s.append("HWND is not a live window");
            },
            WgcTargetValidationError::NotVisible => {
                s.append("HWND is not visible");
            },
            WgcTargetValidationError::Minimized => {
                s.append("HWND is minimized");
            },
            WgcTargetValidationError::EmptyBounds => {
                s.append("target bounds are empty");
            },
            WgcTargetValidationError::MonitorUnavailable => {
                s.append("monitor handle is unavailable");
            },
            WgcTargetValidationError::MonitorInfoUnavailable => {
                s.append("monitor info is unavailable");
            },
        }
        proof {
            assert(s@ =~= self.spec_message());
        }
        s
    }
}

/// The outcome of checking a target, with its bounds when it is valid.
#[derive(Debug, Clone, Copy, PartialEq, Eq, Structural)]
pub struct WgcTargetValidationReport {
    pub target: WgcCaptureTarget,
    pub kind: WgcTargetKind,
    pub valid: bool,
    pub bounds: Option<MonitorCaptureBounds>,
    pub error: Option<WgcTargetValidationError>,
}

impl WgcTargetValidationReport {
    pub open spec fn spec_valid(
        target: WgcCaptureTarget,
        kind: WgcTargetKind,
        bounds: Option<MonitorCaptureBounds>,
    ) -> Self {
        WgcTargetValidationReport { target, kind, valid: true, bounds, error: None }
    }

    pub open spec fn spec_invalid(
        target: WgcCaptureTarget,
        kind: WgcTargetKind,
        error: WgcTargetValidationError,
    ) -> Self {
        WgcTargetValidationReport { target, kind, valid: false, bounds: None, error: Some(error) }
    }

    pub fn valid(
        target: WgcCaptureTarget,
        kind: WgcTargetKind,
        bounds: Option<MonitorCaptureBounds>,
    ) -> (r: Self)
        ensures
            r == Self::spec_valid(target, kind, bounds),
    {
        Self { target, kind, valid: true, bounds, error: None }
    }

    pub fn invalid(target: WgcCaptureTarget, kind: WgcTargetKind, error: WgcTargetValidationError) -> (r:
        Self)
        ensures
            r == Self::spec_invalid(target, kind, error),
    {
        Self { target, kind, valid: false, bounds: None, error: Some(error) }
    }

    pub fn error_message(&self) -> (r: Option<String>)
        ensures
            match self.error {
                Some(e) => r matches Some(text) && text@ == e.spec_message(),
                None => r is None,
            },
    {
        match self.error {
            Some(e) => Some(e.to_string()),
            None => None,
        }
    }
}

pub open spec fn spec_target_kind(target: WgcCaptureTarget) -> WgcTargetKind {
    match target {
        WgcCaptureTarget::Monitor { .. } => WgcTargetKind::Monitor,
        WgcCaptureTarget::Window { .. } => WgcTargetKind::Window,
    }
}

pub fn target_kind(target: WgcCaptureTarget) -> (r: WgcTargetKind)
    ensures
        r == spec_target_kind(target),
{
    match target {
        WgcCaptureTarget::Monitor { .. } => WgcTargetKind::Monitor,
        WgcCaptureTarget::Window { .. } => WgcTargetKind::Window,
    }
}

/// A zero handle is refused before any platform call.
pub open spec fn spec_target_basics(target: WgcCaptureTarget) -> Result<(), WgcTargetValidationError> {
    match target {
        WgcCaptureTarget::Monitor { hmonitor } => if hmonitor == 0 {
            Err(WgcTargetValidationError::ZeroHandle { kind: WgcTargetKind::Monitor })
        } else {
            Ok(())
        },
        WgcCaptureTarget::Window { hwnd } => if hwnd == 0 {
            Err(WgcTargetValidationError::ZeroHandle { kind: WgcTargetKind::Window })
        } else {
            Ok(())
        },
    }
}

pub fn validate_wgc_capture_target_basics(target: WgcCaptureTarget) -> (r: Result<
    (),
    WgcTargetValidationError,
>)
    ensures
        r == spec_target_basics(target),
{
    match target {
        WgcCaptureTarget::Monitor { hmonitor } => {
            if hmonitor == 0 {
                Err(WgcTargetValidationError::ZeroHandle { kind: WgcTargetKind::Monitor })
            } else {
                Ok(())
            }
        },
        WgcCaptureTarget::Window { hwnd } => {
            if hwnd == 0 {
                Err(WgcTargetValidationError::ZeroHandle { kind: WgcTargetKind::Window })
            } else {
                Ok(())
            }
        },
    }
}

/// Checks a target: a zero handle is refused first; past that, this build has no window
/// system to ask, so the target is reported as unsupported.
pub fn validate_wgc_capture_target(target: WgcCaptureTarget) -> (r: WgcTargetValidationReport)
    ensures
        r == match spec_target_basics(target) {
            Err(e) => WgcTargetValidationReport::spec_invalid(target, spec_target_kind(target), e),
            Ok(_) => WgcTargetValidationReport::spec_invalid(
                target,
                spec_target_kind(target),
                WgcTargetValidationError::UnsupportedPlatform,
            ),
        },
{
    match validate_wgc_capture_target_basics(target) {
        Err(e) => WgcTargetValidationReport::invalid(target, target_kind(target), e),
        Ok(_) => WgcTargetValidationReport::invalid(
            target,
            target_kind(target),
            WgcTargetValidationError::UnsupportedPlatform,
        ),
    }
}

/// Finds the monitor target for desktop bounds: empty bounds, or bounds whose right or
/// bottom edge leaves the `i32` range, are refused before any platform call; past that,
/// this build has no monitor to find.
pub fn resolve_wgc_monitor_target_from_bounds(bounds: MonitorCaptureBounds) -> (r:
    WgcTargetValidationReport)
    ensures
        r == WgcTargetValidationReport::spec_invalid(
            WgcCaptureTarget::Monitor { hmonitor: 0 },
            WgcTargetKind::Monitor,
            if bounds.spec_is_empty() || bounds.spec_right() is None || bounds.spec_bottom() is None {
                WgcTargetValidationError::EmptyBounds
            } else {
                WgcTargetValidationError::UnsupportedPlatform
            },
        ),
{
    if bounds.is_empty() || bounds.right().is_none() || bounds.bottom().is_none() {
        return WgcTargetValidationReport::invalid(
            WgcCaptureTarget::Monitor { hmonitor: 0 },
            WgcTargetKind::Monitor,
            WgcTargetValidationError::EmptyBounds,
        );
    }
    WgcTargetValidationReport::invalid(
        WgcCaptureTarget::Monitor { hmonitor: 0 },
        WgcTargetKind::Monitor,
        WgcTargetValidationError::UnsupportedPlatform,
    )
}

/// The bounds of a rectangle given by its edges, when it has positive width and height.
pub open spec fn spec_bounds_from_rect_edges(left: i32, top: i32, right: i32, bottom: i32) -> Option<
    MonitorCaptureBounds,
> {
    if right <= left || bottom <= top {
        None
    } else {
        Some(
            MonitorCaptureBounds {
                origin_x: left,
                origin_y: top,
                width: (right - left) as u32,
                height: (bottom - top) as u32,
            },
        )
    }
}

pub fn monitor_bounds_from_rect_edges(left: i32, top: i32, right: i32, bottom: i32) -> (r: Option<
    MonitorCaptureBounds,
>)
    ensures
        r == spec_bounds_from_rect_edges(left, top, right, bottom),
{
    if right <= left || bottom <= top {
        return None;
    }
    let width = (right as i64 - left as i64) as u32;
    let height = (bottom as i64 - top as i64) as u32;
    Some(MonitorCaptureBounds::new(left, top, width, height))
}

/// The point whose monitor the platform is asked for: the centre of `bounds`, with the
/// half-extents capped to `i32` and the sums saturating.
pub fn wgc_monitor_probe_point(bounds: MonitorCaptureBounds) -> (r: (i32, i32))
    ensures
        r.0 == clamp_i32(bounds.origin_x + (bounds.width / 2) as i32),
        r.1 == clamp_i32(bounds.origin_y + (bounds.height / 2) as i32),
{
    let half_width = (bounds.width / 2) as i32;
    let half_height = (bounds.height / 2) as i32;
    (saturating_add_i32(bounds.origin_x, half_width), saturating_add_i32(bounds.origin_y, half_height))
}

/// The report for a monitor handle, given the monitor rectangle that the platform
/// reported for it (`None` when it reported none).
pub fn wgc_monitor_handle_report(hmonitor: isize, monitor_rect: Option<Win32Rect>) -> (r:
    WgcTargetValidationReport)
    ensures
        r == match monitor_rect {
            Some(rect) => match spec_bounds_from_rect_edges(rect.left, rect.top, rect.right, rect.bottom) {
                Some(bounds) => WgcTargetValidationReport::spec_valid(
                    WgcCaptureTarget::Monitor { hmonitor },
                    WgcTargetKind::Monitor,
                    Some(bounds),
                ),
                None => WgcTargetValidationReport::spec_invalid(
                    WgcCaptureTarget::Monitor { hmonitor },
                    WgcTargetKind::Monitor,
                    WgcTargetValidationError::MonitorInfoUnavailable,
                ),
            },
            None => WgcTargetValidationReport::spec_invalid(
                WgcCaptureTarget::Monitor { hmonitor },
                WgcTargetKind::Monitor,
                WgcTargetValidationError::MonitorInfoUnavailable,
            ),
        },
{
    let target = WgcCaptureTarget::Monitor { hmonitor };
    if let Some(rect) = monitor_rect {
        if let Some(bounds) = monitor_bounds_from_rect_edges(rect.left, rect.top, rect.right, rect.bottom) {
            return WgcTargetValidationReport::valid(target, WgcTargetKind::Monitor, Some(bounds));
        }
    }
    WgcTargetValidationReport::invalid(
        target,
        WgcTargetKind::Monitor,
        WgcTargetValidationError::MonitorInfoUnavailable,
    )
}

/// The report for the monitor found at the probe point: a null monitor is unavailable,
/// otherwise the monitor's handle report.
pub fn wgc_resolved_monitor_report(hmonitor: isize, monitor_rect: Option<Win32Rect>) -> (r:
    WgcTargetValidationReport)
    ensures
        hmonitor == 0 ==> r == WgcTargetValidationReport::spec_invalid(
            WgcCaptureTarget::Monitor { hmonitor: 0 },
            WgcTargetKind::Monitor,
            WgcTargetValidationError::MonitorUnavailable,
        ),
        hmonitor != 0 ==> r.target == (WgcCaptureTarget::Monitor { hmonitor }) && r.kind
            == WgcTargetKind::Monitor,
        hmonitor != 0 ==> match monitor_rect {
            Some(rect) => match spec_bounds_from_rect_edges(rect.left, rect.top, rect.right, rect.bottom) {
                Some(bounds) => r.valid && r.bounds == Some(bounds) && r.error is None,
                None => !r.valid && r.error == Some(WgcTargetValidationError::MonitorInfoUnavailable),
            },
            None => !r.valid && r.error == Some(WgcTargetValidationError::MonitorInfoUnavailable),
        },
{
    if hmonitor == 0 {
        return WgcTargetValidationReport::invalid(
            WgcCaptureTarget::Monitor { hmonitor: 0 },
            WgcTargetKind::Monitor,
            WgcTargetValidationError::MonitorUnavailable,
        );
    }
    wgc_monitor_handle_report(hmonitor, monitor_rect)
}

/// What the platform says about a window handle.
#[derive(Debug, Clone, Copy, PartialEq, Eq, Structural)]
pub struct WgcWindowState {
    pub is_window: bool,
    pub is_visible: bool,
    pub is_minimized: bool,
    /// The window rectangle, when the platform could report it.
    pub rect: Option<Win32Rect>,
}

/// The report for a window handle: it must be a live, visible, non-minimized window
/// with a non-empty rectangle, checked in that order.
pub fn wgc_window_handle_report(hwnd: isize, window: WgcWindowState) -> (r: WgcTargetValidationReport)
    ensures
        r == {
            let target = WgcCaptureTarget::Window { hwnd };
            if !window.is_window {
                WgcTargetValidationReport::spec_invalid(target, WgcTargetKind::Window, WgcTargetValidationError::NotAWindow)
            } else if !window.is_visible {
                WgcTargetValidationReport::spec_invalid(target, WgcTargetKind::Window, WgcTargetValidationError::NotVisible)
            } else if window.is_minimized {
                WgcTargetValidationReport::spec_invalid(target, WgcTargetKind::Window, WgcTargetValidationError::Minimized)
            } else {
                match window.rect {
                    Some(rect) => match spec_bounds_from_rect_edges(rect.left, rect.top, rect.right, rect.bottom) {
                        Some(bounds) => WgcTargetValidationReport::spec_valid(target, WgcTargetKind::Window, Some(bounds)),
                        None => WgcTargetValidationReport::spec_invalid(target, WgcTargetKind::Window, WgcTargetValidationError::EmptyBounds),
                    },
                    None => WgcTargetValidationReport::spec_invalid(target, WgcTargetKind::Window, WgcTargetValidationError::EmptyBounds),
                }
            }
        },
{
    let target = WgcCaptureTarget::Window { hwnd };
    if !window.is_window {
        return WgcTargetValidationReport::invalid(target, WgcTargetKind::Window, WgcTargetValidationError::NotAWindow);
    }
    if !window.is_visible {
        return WgcTargetValidationReport::invalid(target, WgcTargetKind::Window, WgcTargetValidationError::NotVisible);
    }
    if window.is_minimized {
        return WgcTargetValidationReport::invalid(target, WgcTargetKind::Window, WgcTargetValidationError::Minimized);
    }
    if let Some(rect) = window.rect {
        if let Some(bounds) = monitor_bounds_from_rect_edges(rect.left, rect.top, rect.right, rect.bottom) {
            return WgcTargetValidationReport::valid(target, WgcTargetKind::Window, Some(bounds));
        }
    }
    WgcTargetValidationReport::invalid(target, WgcTargetKind::Window, WgcTargetValidationError::EmptyBounds)
}

/// Bounds built from rectangle edges are never empty, their extents are the distances
/// between the edges, and their right and bottom edges give back the edges they were
/// built from whenever those distances fit in `i32`.
pub proof fn rect_edges_round_trip(left: i32, top: i32, right: i32, bottom: i32)
    ensures
        spec_bounds_from_rect_edges(left, top, right, bottom) matches Some(b) ==> {
            &&& !b.spec_is_empty()
            &&& b.width == right - left
            &&& b.height == bottom - top
            &&& (right - left <= i32::MAX ==> b.spec_right() == Some(right))
            &&& (bottom - top <= i32::MAX ==> b.spec_bottom() == Some(bottom))
        },
{
    if right > left && bottom > top {
        let w = right - left;
        let h = bottom - top;
        assert(0 < w <= u32::MAX);
        assert(0 < h <= u32::MAX);
        assert((w as u32) as int == w);
        assert((h as u32) as int == h);
    }
}

} // verus!
