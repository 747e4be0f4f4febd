//! A tiny layered window flashed on a monitor so that desktop duplication sees an update.
use vstd::prelude::*;

use crate::capture::MonitorCaptureBounds;

verus! {

/// The largest pulse square, in pixels.
pub const MAX_PULSE_SIZE_PX: u32 = 4;

/// The most opaque pulse alpha.
pub const MAX_PULSE_ALPHA: u8 = 16;

/// The longest time the pulse window stays up.
pub const MAX_PULSE_DWELL_MS: u64 = 250;

pub const WS_EX_TOPMOST: u32 = 0x00000008;
pub const WS_EX_TOOLWINDOW: u32 = 0x00000080;
pub const WS_EX_APPWINDOW: u32 = 0x00040000;
pub const WS_EX_LAYERED: u32 = 0x00080000;
pub const WS_EX_NOACTIVATE: u32 = 0x08000000;

/// Where and how the pulse is drawn, and how long it stays.
#[derive(Debug, Clone, Copy, PartialEq, Eq, Structural)]
pub struct DesktopUpdatePulseRequest {
    pub bounds: MonitorCaptureBounds,
    pub pulse_size_px: u32,
    pub pulse_alpha: u8,
    pub dwell_ms: u64,
}

impl DesktopUpdatePulseRequest {
    pub fn new(bounds: MonitorCaptureBounds, pulse_size_px: u32, pulse_alpha: u8, dwell_ms: u64) -> (r:
        Self)
        ensures
            r == (DesktopUpdatePulseRequest { bounds, pulse_size_px, pulse_alpha, dwell_ms }),
    {
        Self { bounds, pulse_size_px, pulse_alpha, dwell_ms }
    }
}

/// What a pulse did, step by step.
#[derive(Debug, Clone, PartialEq, Eq)]
pub struct DesktopUpdatePulseReport {
    pub attempted: bool,
    pub ok: bool,
    pub requested_bounds: MonitorCaptureBounds,
    pub pulse_bounds: Option<MonitorCaptureBounds>,
    pub pulse_size_px: u32,
    pub pulse_alpha: u8,
    pub dwell_ms: u64,
    pub class_registered: bool,
    pub window_created: bool,
    pub layered_attributes_set: bool,
    pub shown_no_activate: bool,
    pub update_window_called: bool,
    pub invalidate_called: bool,
    pub dwm_flush_called: bool,
    pub destroy_attempted: bool,
    pub destroy_confirmed: bool,
    pub hidden_from_alt_tab: bool,
    pub no_activate: bool,
    pub appwindow_excluded: bool,
    pub error: Option<String>,
}

impl DesktopUpdatePulseReport {
    /// The pulse was refused before any window work, for `error`.
    pub open spec fn spec_is_blocked(self, request: DesktopUpdatePulseRequest, error: Seq<char>) -> bool {
        &&& !self.attempted && !self.ok
        &&& self.requested_bounds == request.bounds
        &&& self.pulse_bounds is None
        &&& self.pulse_size_px == request.pulse_size_px
        &&& self.pulse_alpha == request.pulse_alpha
        &&& self.dwell_ms == request.dwell_ms
        &&& !self.class_registered && !self.window_created && !self.layered_attributes_set
        &&& !self.shown_no_activate && !self.update_window_called && !self.invalidate_called
        &&& !self.dwm_flush_called && !self.destroy_attempted && !self.destroy_confirmed
        &&& !self.hidden_from_alt_tab && !self.no_activate && !self.appwindow_excluded
        &&& self.error matches Some(text) && text@ == error
    }

    pub fn blocked(request: DesktopUpdatePulseRequest, error: &str) -> (r: Self)
        ensures
            r.spec_is_blocked(request, error@),
    {
        Self {
            attempted: false,
            ok: false,
            requested_bounds: request.bounds,
            pulse_bounds: None,
            pulse_size_px: request.pulse_size_px,
            pulse_alpha: request.pulse_alpha,
            dwell_ms: request.dwell_ms,
            class_registered: false,
            window_created: false,
            layered_attributes_set: false,
            shown_no_activate: false,
            update_window_called: false,
            invalidate_called: false,
            dwm_flush_called: false,
            destroy_attempted: false,
            destroy_confirmed: false,
            hidden_from_alt_tab: false,
            no_activate: false,
            appwindow_excluded: false,
            error: Some(error.to_owned()),
        }
    }
}

/// The first check a pulse request fails, if any: non-empty bounds, a size of 1 to 4
/// pixels, an alpha of 1 to 16, and a dwell of at most 250 ms.
pub open spec fn spec_pulse_request_error(request: DesktopUpdatePulseRequest) -> Option<Seq<char>> {
    if request.bounds.spec_is_empty() {
        Some("desktop update pulse requires non-empty bounds"@)
    } else if request.pulse_size_px == 0 || request.pulse_size_px > MAX_PULSE_SIZE_PX {
        Some("desktop update pulse size must be 1..=4 px"@)
    } else if request.pulse_alpha == 0 || request.pulse_alpha > MAX_PULSE_ALPHA {
        Some("desktop update pulse alpha must be 1..=16"@)
    } else if request.dwell_ms > MAX_PULSE_DWELL_MS {
        Some("desktop update pulse dwell must be <= 250 ms"@)
    } else {
        None
    }
}

/// Checks a pulse request; a refused request is reported blocked with the reason.
pub fn check_desktop_update_pulse_request(request: DesktopUpdatePulseRequest) -> (r: Option<
    DesktopUpdatePulseReport,
>)
    ensures
        match spec_pulse_request_error(request) {
            Some(error) => r matches Some(report) && report.spec_is_blocked(request, error),
            None => r is None,
        },
{
    if request.bounds.is_empty() {
        return Some(
            DesktopUpdatePulseReport::blocked(request, "desktop update pulse requires non-empty bounds"),
        );
    }
    if request.pulse_size_px == 0 || request.pulse_size_px > MAX_PULSE_SIZE_PX {
        return Some(
            DesktopUpdatePulseReport::blocked(request, "desktop update pulse size must be 1..=4 px"),
        );
    }
    if request.pulse_alpha == 0 || request.pulse_alpha > MAX_PULSE_ALPHA {
        return Some(
            DesktopUpdatePulseReport::blocked(request, "desktop update pulse alpha must be 1..=16"),
        );
    }
    if request.dwell_ms > MAX_PULSE_DWELL_MS {
        return Some(
            DesktopUpdatePulseReport::blocked(request, "desktop update pulse dwell must be <= 250 ms"),
        );
    }
    None
}

/// Runs a desktop update pulse. A refused request is blocked with its reason; this build
/// has no window system, so an accepted one is blocked as requiring Windows.
pub fn run_desktop_update_pulse(request: DesktopUpdatePulseRequest) -> (r: DesktopUpdatePulseReport)
    ensures
        r.spec_is_blocked(
            request,
            match spec_pulse_request_error(request) {
                Some(error) => error,
                None => "desktop update pulse requires Windows"@,
            },
        ),
{
    match check_desktop_update_pulse_request(request) {
        Some(report) => report,
        None => DesktopUpdatePulseReport::blocked(request, "desktop update pulse requires Windows"),
    }
}

/// The pulse square: at the monitor's origin, as large as asked but no larger than the
/// monitor, and at least one pixel.
pub open spec fn spec_pulse_bounds(request: DesktopUpdatePulseRequest) -> MonitorCaptureBounds {
    let a = if request.pulse_size_px <= request.bounds.width {
        request.pulse_size_px
    } else {
        request.bounds.width
    };
    let b = if a <= request.bounds.height {
        a
    } else {
        request.bounds.height
    };
    let size = if b >= 1 {
        b
    } else {
        1
    };
    MonitorCaptureBounds {
        origin_x: request.bounds.origin_x,
        origin_y: request.bounds.origin_y,
        width: size,
        height: size,
    }
}

pub fn pulse_bounds(request: DesktopUpdatePulseRequest) -> (r: MonitorCaptureBounds)
    ensures
        r == spec_pulse_bounds(request),
{
    let a = if request.pulse_size_px <= request.bounds.width {
        request.pulse_size_px
    } else {
        request.bounds.width
    };
    let b = if a <= request.bounds.height {
        a
    } else {
        request.bounds.height
    };
    let size = if b >= 1 {
        b
    } else {
        1
    };
    MonitorCaptureBounds::new(request.bounds.origin_x, request.bounds.origin_y, size, size)
}

/// The extended style of the pulse window: a layered, topmost tool window that never
/// activates and has no taskbar button.
pub fn pulse_ex_style() -> (r: u32)
    ensures
        r == (WS_EX_TOOLWINDOW | WS_EX_LAYERED | WS_EX_NOACTIVATE | WS_EX_TOPMOST) & !WS_EX_APPWINDOW,
{
    (WS_EX_TOOLWINDOW | WS_EX_LAYERED | WS_EX_NOACTIVATE | WS_EX_TOPMOST) & !WS_EX_APPWINDOW
}

pub open spec fn spec_hides_from_alt_tab(style: u32) -> bool {
    style & WS_EX_TOOLWINDOW != 0 && style & WS_EX_APPWINDOW == 0
}

pub fn style_hides_from_alt_tab(style: u32) -> (r: bool)
    ensures
        r == spec_hides_from_alt_tab(style),
{
    style & WS_EX_TOOLWINDOW != 0 && style & WS_EX_APPWINDOW == 0
}

pub fn style_no_activate(style: u32) -> (r: bool)
    ensures
        r == (style & WS_EX_NOACTIVATE != 0),
{
    style & WS_EX_NOACTIVATE != 0
}

pub fn style_excludes_appwindow(style: u32) -> (r: bool)
    ensures
        r == (style & WS_EX_APPWINDOW == 0),
{
    style & WS_EX_APPWINDOW == 0
}

/// The pulse window's style hides it from Alt+Tab, never activates it, and keeps it
/// off the taskbar.
pub proof fn pulse_window_stays_out_of_the_way()
    ensures
        spec_hides_from_alt_tab(
            (WS_EX_TOOLWINDOW | WS_EX_LAYERED | WS_EX_NOACTIVATE | WS_EX_TOPMOST) & !WS_EX_APPWINDOW,
        ),
        (WS_EX_TOOLWINDOW | WS_EX_LAYERED | WS_EX_NOACTIVATE | WS_EX_TOPMOST) & !WS_EX_APPWINDOW
            & WS_EX_NOACTIVATE != 0,
        (WS_EX_TOOLWINDOW | WS_EX_LAYERED | WS_EX_NOACTIVATE | WS_EX_TOPMOST) & !WS_EX_APPWINDOW
            & WS_EX_APPWINDOW == 0,
{
    assert(((0x80u32 | 0x80000u32 | 0x08000000u32 | 0x8u32) & !0x40000u32) & 0x80u32 != 0
        && ((0x80u32 | 0x80000u32 | 0x08000000u32 | 0x8u32) & !0x40000u32) & 0x40000u32 == 0
        && ((0x80u32 | 0x80000u32 | 0x08000000u32 | 0x8u32) & !0x40000u32) & 0x08000000u32 != 0)
        by (bit_vector);
}

/// What the window system answered at each step of a pulse on Windows.
#[derive(Debug, Clone, Copy, PartialEq, Eq, Structural)]
pub struct DesktopUpdatePulseSteps {
    pub class_registered: bool,
    pub window_created: bool,
    pub layered_attributes_set: bool,
    pub shown_no_activate: bool,
    pub update_window_called: bool,
    pub invalidate_called: bool,
    pub dwm_flush_called: bool,
    pub destroy_confirmed: bool,
}

/// The error a pulse on Windows reports: none when every step held; otherwise the
/// window that was not created, not destroyed, or not shown layered and inactive.
pub open spec fn spec_pulse_steps_error(steps: DesktopUpdatePulseSteps) -> Option<Seq<char>> {
    if !steps.window_created {
        Some("CreateWindowExW failed for desktop update pulse"@)
    } else if !steps.destroy_confirmed {
        Some("DestroyWindow failed for desktop update pulse"@)
    } else if !steps.layered_attributes_set || !steps.shown_no_activate {
        Some("desktop update pulse window was created but not fully shown as layered/no-activate"@)
    } else {
        None
    }
}

/// The report of an accepted pulse, from the window system's answers.
pub fn desktop_update_pulse_report(request: DesktopUpdatePulseRequest, steps: DesktopUpdatePulseSteps) -> (r:
    DesktopUpdatePulseReport)
    ensures
        r.attempted,
        r.ok == (spec_pulse_steps_error(steps) is None),
        match spec_pulse_steps_error(steps) {
            Some(error) => r.error matches Some(text) && text@ == error,
            None => r.error is None,
        },
        r.requested_bounds == request.bounds,
        r.pulse_bounds == Some(spec_pulse_bounds(request)),
        r.window_created == steps.window_created,
        r.destroy_attempted == steps.window_created,
        r.destroy_confirmed == (steps.window_created && steps.destroy_confirmed),
        r.hidden_from_alt_tab && r.no_activate && r.appwindow_excluded,
{
    let style = pulse_ex_style();
    proof {
        pulse_window_stays_out_of_the_way();
    }
    let created = steps.window_created;
    let error = if !created {
        Some(String::from_str("CreateWindowExW failed for desktop update pulse"))
    } else if !steps.destroy_confirmed {
        Some(String::from_str("DestroyWindow failed for desktop update pulse"))
    } else if !steps.layered_attributes_set || !steps.shown_no_activate {
        Some(
            String::from_str(
                "desktop update pulse window was created but not fully shown as layered/no-activate",
            ),
        )
    } else {
        None
    };
    DesktopUpdatePulseReport {
        attempted: true,
        ok: error.is_none(),
        requested_bounds: request.bounds,
        pulse_bounds: Some(pulse_bounds(request)),
        pulse_size_px: request.pulse_size_px,
        pulse_alpha: request.pulse_alpha,
        dwell_ms: request.dwell_ms,
        class_registered: steps.class_registered,
        window_created: created,
        layered_attributes_set: created && steps.layered_attributes_set,
        shown_no_activate: created && steps.shown_no_activate,
        update_window_called: created && steps.update_window_called,
        invalidate_called: created && steps.invalidate_called,
        dwm_flush_called: created && steps.dwm_flush_called,
        destroy_attempted: created,
        destroy_confirmed: created && steps.destroy_confirmed,
        hidden_from_alt_tab: style_hides_from_alt_tab(style),
        no_activate: style_no_activate(style),
        appwindow_excluded: style_excludes_appwindow(style),
        error,
    }
}

} // verus!
