//! The native overlay window: its lifecycle and the Win32 style policy it is shown with.
use vstd::prelude::*;

verus! {

/// Where the overlay window is in its lifecycle.
#[derive(Debug, Clone, Copy, PartialEq, Eq, Structural)]
pub enum NativeOverlayState {
    Idle,
    Preparing,
    Visible,
    Closing,
}

impl NativeOverlayState {
    pub open spec fn spec_can_show(self) -> bool {
        self is Idle || self is Preparing
    }

    pub open spec fn spec_can_close(self) -> bool {
        self is Preparing || self is Visible
    }

    pub fn can_show(self) -> (r: bool)
        ensures
            r == self.spec_can_show(),
    {
        match self {
            NativeOverlayState::Idle | NativeOverlayState::Preparing => true,
            _ => false,
        }
    }

    pub fn can_close(self) -> (r: bool)
        ensures
            r == self.spec_can_close(),
    {
        match self {
            NativeOverlayState::Preparing | NativeOverlayState::Visible => true,
            _ => false,
        }
    }
}

/// How the overlay window behaves towards focus, capture and z-order.
#[derive(Debug, Clone, Copy, PartialEq, Eq, Structural)]
pub struct NativeOverlayOptions {
    pub no_activate: bool,
    pub exclude_from_capture: bool,
    pub topmost: bool,
}

impl Default for NativeOverlayOptions {
    fn default() -> (r: Self)
        ensures
            r == (NativeOverlayOptions { no_activate: true, exclude_from_capture: true, topmost: true }),
    {
        Self { no_activate: true, exclude_from_capture: true, topmost: true }
    }
}

pub const HWND_TOPMOST: isize = -1;

pub const HWND_NOTOPMOST: isize = -2;

pub const SWP_NOSIZE: u32 = 0x0001;

pub const SWP_NOMOVE: u32 = 0x0002;

pub const SWP_NOACTIVATE: u32 = 0x0010;

pub const SWP_SHOWWINDOW: u32 = 0x0040;

pub const SWP_HIDEWINDOW: u32 = 0x0080;

pub const SWP_FRAMECHANGED: u32 = 0x0020;

pub const SW_SHOWNOACTIVATE: i32 = 4;

pub const SW_SHOW: i32 = 5;

pub const WS_POPUP: u32 = 0x80000000;

pub const WS_VISIBLE: u32 = 0x10000000;

pub const WS_EX_NOACTIVATE: isize = 0x08000000;

pub const WS_EX_TOOLWINDOW: isize = 0x00000080;

pub const WS_EX_APPWINDOW: isize = 0x00040000;

pub const WDA_NONE: u32 = 0x00000000;

pub const WDA_EXCLUDEFROMCAPTURE: u32 = 0x00000011;

/// The Win32 styles, flags and affinity the overlay window is created and shown with.
#[derive(Debug, Clone, Copy, PartialEq, Eq, Structural)]
pub struct NativeOverlayWin32Policy {
    pub create_style: u32,
    pub create_ex_style: isize,
    pub apply_swp_flags: u32,
    pub show_swp_flags: u32,
    pub hide_swp_flags: u32,
    pub insert_after: isize,
    pub show_command: i32,
    pub display_affinity: u32,
}

impl NativeOverlayWin32Policy {
    pub open spec fn spec_hides_from_taskbar_and_alt_tab(self) -> bool {
        self.create_ex_style & WS_EX_TOOLWINDOW != 0 && self.create_ex_style & WS_EX_APPWINDOW == 0
    }

    pub open spec fn spec_avoids_activation(self) -> bool {
        &&& self.create_ex_style & WS_EX_NOACTIVATE != 0
        &&& self.apply_swp_flags & SWP_NOACTIVATE != 0
        &&& self.show_swp_flags & SWP_NOACTIVATE != 0
    }

    pub fn hides_from_taskbar_and_alt_tab(self) -> (r: bool)
        ensures
            r == self.spec_hides_from_taskbar_and_alt_tab(),
    {
        self.create_ex_style & WS_EX_TOOLWINDOW != 0 && self.create_ex_style & WS_EX_APPWINDOW == 0
    }

    pub fn avoids_activation(self) -> (r: bool)
        ensures
            r == self.spec_avoids_activation(),
    {
        self.create_ex_style & WS_EX_NOACTIVATE != 0 && self.apply_swp_flags & SWP_NOACTIVATE != 0
            && self.show_swp_flags & SWP_NOACTIVATE != 0
    }
}

/// The extended style a new overlay window is created with.
pub open spec fn spec_create_ex_style(options: NativeOverlayOptions) -> isize {
    if options.no_activate {
        WS_EX_NOACTIVATE | WS_EX_TOOLWINDOW
    } else {
        0
    }
}

/// The extended style of an existing window once the overlay policy is applied.
pub open spec fn spec_apply_overlay_ex_style(current: isize, options: NativeOverlayOptions) -> isize {
    if options.no_activate {
        (current | spec_create_ex_style(options)) & !WS_EX_APPWINDOW
    } else {
        current
    }
}

/// The policy for a set of options.
pub open spec fn spec_win32_policy(options: NativeOverlayOptions) -> NativeOverlayWin32Policy {
    NativeOverlayWin32Policy {
        create_style: WS_POPUP,
        create_ex_style: spec_create_ex_style(options),
        apply_swp_flags: SWP_NOMOVE | SWP_NOSIZE | SWP_NOACTIVATE | SWP_FRAMECHANGED,
        show_swp_flags: SWP_NOMOVE | SWP_NOSIZE | SWP_SHOWWINDOW | if options.no_activate {
            SWP_NOACTIVATE
        } else {
            0
        },
        hide_swp_flags: SWP_NOMOVE | SWP_NOSIZE | SWP_NOACTIVATE | SWP_HIDEWINDOW,
        insert_after: if options.topmost {
            HWND_TOPMOST
        } else {
            HWND_NOTOPMOST
        },
        show_command: if options.no_activate {
            SW_SHOWNOACTIVATE
        } else {
            SW_SHOW
        },
        display_affinity: if options.exclude_from_capture {
            WDA_EXCLUDEFROMCAPTURE
        } else {
            WDA_NONE
        },
    }
}

fn win32_overlay_create_ex_style(options: NativeOverlayOptions) -> (r: isize)
    ensures
        r == spec_create_ex_style(options),
{
    if options.no_activate {
        WS_EX_NOACTIVATE | WS_EX_TOOLWINDOW
    } else {
        0
    }
}

/// Adds the overlay's extended styles to an existing window's and removes the app-window
/// style, when the overlay must not take activation.
pub fn win32_apply_overlay_ex_style(current_ex_style: isize, options: NativeOverlayOptions) -> (r:
    isize)
    ensures
        r == spec_apply_overlay_ex_style(current_ex_style, options),
{
    if options.no_activate {
        (current_ex_style | win32_overlay_create_ex_style(options)) & !WS_EX_APPWINDOW
    } else {
        current_ex_style
    }
}

impl NativeOverlayOptions {
    pub fn to_win32_policy(self) -> (r: NativeOverlayWin32Policy)
        ensures
            r == spec_win32_policy(self),
    {
        NativeOverlayWin32Policy {
            create_style: WS_POPUP,
            create_ex_style: win32_overlay_create_ex_style(self),
            apply_swp_flags: SWP_NOMOVE | SWP_NOSIZE | SWP_NOACTIVATE | SWP_FRAMECHANGED,
            show_swp_flags: SWP_NOMOVE | SWP_NOSIZE | SWP_SHOWWINDOW | if self.no_activate {
                SWP_NOACTIVATE
            } else {
                0
            },
            hide_swp_flags: SWP_NOMOVE | SWP_NOSIZE | SWP_NOACTIVATE | SWP_HIDEWINDOW,
            insert_after: if self.topmost {
                HWND_TOPMOST
            } else {
                HWND_NOTOPMOST
            },
            show_command: if self.no_activate {
                SW_SHOWNOACTIVATE
            } else {
                SW_SHOW
            },
            display_affinity: if self.exclude_from_capture {
                WDA_EXCLUDEFROMCAPTURE
            } else {
                WDA_NONE
            },
        }
    }
}

/// A non-activating overlay policy keeps the window out of the taskbar and Alt+Tab,
/// never takes activation, and is not created visible.
pub proof fn no_activate_policy_hides_and_avoids_activation(options: NativeOverlayOptions)
    requires
        options.no_activate,
    ensures
        spec_win32_policy(options).spec_hides_from_taskbar_and_alt_tab(),
        spec_win32_policy(options).spec_avoids_activation(),
        spec_win32_policy(options).create_style & WS_VISIBLE == 0,
{
    assert((0x08000000isize | 0x00000080isize) & 0x00000080isize != 0) by (bit_vector);
    assert((0x08000000isize | 0x00000080isize) & 0x00040000isize == 0) by (bit_vector);
    assert((0x08000000isize | 0x00000080isize) & 0x08000000isize != 0) by (bit_vector);
    assert((0x0002u32 | 0x0001u32 | 0x0010u32 | 0x0020u32) & 0x0010u32 != 0) by (bit_vector);
    assert((0x0002u32 | 0x0001u32 | 0x0040u32 | 0x0010u32) & 0x0010u32 != 0) by (bit_vector);
    assert(0x80000000u32 & 0x10000000u32 == 0) by (bit_vector);
}

/// Applying the non-activating policy to any window removes the app-window style and
/// adds the tool-window and no-activate styles, keeping every other style bit.
pub proof fn applying_policy_removes_app_window(current: isize, options: NativeOverlayOptions)
    requires
        options.no_activate,
    ensures
        spec_apply_overlay_ex_style(current, options) & WS_EX_APPWINDOW == 0,
        spec_apply_overlay_ex_style(current, options) & WS_EX_TOOLWINDOW != 0,
        spec_apply_overlay_ex_style(current, options) & WS_EX_NOACTIVATE != 0,
{
    assert(((current | (0x08000000isize | 0x00000080isize)) & !0x00040000isize) & 0x00040000isize
        == 0) by (bit_vector);
    assert(((current | (0x08000000isize | 0x00000080isize)) & !0x00040000isize) & 0x00000080isize
        != 0) by (bit_vector);
    assert(((current | (0x08000000isize | 0x00000080isize)) & !0x00040000isize) & 0x08000000isize
        != 0) by (bit_vector);
}

/// A lifecycle concern reported about the overlay.
#[derive(Debug, Clone, Copy, PartialEq, Eq, Structural)]
pub enum NativeOverlayLifecycleDiagnosticKind {
    TaskbarOrAltTabExposure,
    ActivationRisk,
    RepeatHotkeyCleanupPending,
    FocusRestorePending,
}

impl NativeOverlayLifecycleDiagnosticKind {
    pub open spec fn spec_as_str(self) -> Seq<char> {
        match self {
            NativeOverlayLifecycleDiagnosticKind::TaskbarOrAltTabExposure =>
                "taskbar-or-alt-tab-exposure"@,
            NativeOverlayLifecycleDiagnosticKind::ActivationRisk => "activation-risk"@,
            NativeOverlayLifecycleDiagnosticKind::RepeatHotkeyCleanupPending =>
                "repeat-hotkey-cleanup-pending"@,
            NativeOverlayLifecycleDiagnosticKind::FocusRestorePending => "focus-restore-pending"@,
        }
    }

    pub fn as_str(self) -> (r: &'static str)
        ensures
            r@ == self.spec_as_str(),
    {
        match self {
            NativeOverlayLifecycleDiagnosticKind::TaskbarOrAltTabExposure =>
                "taskbar-or-alt-tab-exposure",
            NativeOverlayLifecycleDiagnosticKind::ActivationRisk => "activation-risk",
            NativeOverlayLifecycleDiagnosticKind::RepeatHotkeyCleanupPending =>
                "repeat-hotkey-cleanup-pending",
            NativeOverlayLifecycleDiagnosticKind::FocusRestorePending => "focus-restore-pending",
        }
    }
}

/// A lifecycle concern and the state it was seen in.
#[derive(Debug, Clone, Copy, PartialEq, Eq, Structural)]
pub struct NativeOverlayLifecycleDiagnostic {
    pub kind: NativeOverlayLifecycleDiagnosticKind,
    pub state: NativeOverlayState,
}

impl NativeOverlayLifecycleDiagnostic {
    pub fn new(kind: NativeOverlayLifecycleDiagnosticKind, state: NativeOverlayState) -> (r: Self)
        ensures
            r == (NativeOverlayLifecycleDiagnostic { kind, state }),
    {
        Self { kind, state }
    }
}

/// The overlay's options and lifecycle state.
#[derive(Debug, Clone, Copy, PartialEq, Eq, Structural)]
pub struct NativeOverlayWindowStrategy {
    pub options: NativeOverlayOptions,
    pub state: NativeOverlayState,
}

impl Default for NativeOverlayWindowStrategy {
    fn default() -> (r: Self)
        ensures
            r == (NativeOverlayWindowStrategy {
                options: NativeOverlayOptions {
                    no_activate: true,
                    exclude_from_capture: true,
                    topmost: true,
                },
                state: NativeOverlayState::Idle,
            }),
    {
        Self::new(NativeOverlayOptions::default())
    }
}

/// The text of the error for a null window handle.
pub open spec fn empty_hwnd_message() -> Seq<char> {
    "native overlay hwnd is empty"@
}

impl NativeOverlayWindowStrategy {
    pub fn new(options: NativeOverlayOptions) -> (r: Self)
        ensures
            r == (NativeOverlayWindowStrategy { options, state: NativeOverlayState::Idle }),
    {
        Self { options, state: NativeOverlayState::Idle }
    }

    /// Idle becomes preparing; other states are kept.
    pub fn prepare(&mut self)
        ensures
            final(self).options == old(self).options,
            final(self).state == (if old(self).state is Idle {
                NativeOverlayState::Preparing
            } else {
                old(self).state
            }),
    {
        if let NativeOverlayState::Idle = self.state {
            self.state = NativeOverlayState::Preparing;
        }
    }

    /// Idle or preparing becomes visible; other states are kept.
    pub fn mark_visible(&mut self)
        ensures
            final(self).options == old(self).options,
            final(self).state == (if old(self).state.spec_can_show() {
                NativeOverlayState::Visible
            } else {
                old(self).state
            }),
    {
        if self.state.can_show() {
            self.state = NativeOverlayState::Visible;
        }
    }

    /// Preparing or visible becomes closing; other states are kept.
    pub fn mark_closing(&mut self)
        ensures
            final(self).options == old(self).options,
            final(self).state == (if old(self).state.spec_can_close() {
                NativeOverlayState::Closing
            } else {
                old(self).state
            }),
    {
        if self.state.can_close() {
            self.state = NativeOverlayState::Closing;
        }
    }

    pub fn reset(&mut self)
        ensures
            final(self).options == old(self).options,
            final(self).state == NativeOverlayState::Idle,
    {
        self.state = NativeOverlayState::Idle;
    }

    pub fn apply_to_hwnd(self, hwnd: isize) -> (r: Result<(), String>)
        ensures
            hwnd == 0 <==> r is Err,
            r matches Err(e) ==> e@ == empty_hwnd_message(),
    {
        apply_native_overlay_options(hwnd, self.options)
    }

    pub fn show_hwnd(self, hwnd: isize) -> (r: Result<(), String>)
        ensures
            hwnd == 0 <==> r is Err,
            r matches Err(e) ==> e@ == empty_hwnd_message(),
    {
        show_native_overlay_hwnd(hwnd, self.options)
    }

    pub fn hide_hwnd(self, hwnd: isize) -> (r: Result<(), String>)
        ensures
            hwnd == 0 <==> r is Err,
            r matches Err(e) ==> e@ == empty_hwnd_message(),
    {
        hide_native_overlay_hwnd(hwnd, self.options)
    }
}

/// Applies the overlay policy to a window; off Windows only the handle is checked.
pub fn apply_native_overlay_options(hwnd: isize, options: NativeOverlayOptions) -> (r: Result<
    (),
    String,
>)
    ensures
        hwnd == 0 <==> r is Err,
        r matches Err(e) ==> e@ == empty_hwnd_message(),
{
    if hwnd == 0 {
        return Err(String::from_str("native overlay hwnd is empty"));
    }
    Ok(())
}

/// Shows the overlay window; off Windows only the handle is checked.
pub fn show_native_overlay_hwnd(hwnd: isize, options: NativeOverlayOptions) -> (r: Result<
    (),
    String,
>)
    ensures
        hwnd == 0 <==> r is Err,
        r matches Err(e) ==> e@ == empty_hwnd_message(),
{
    if hwnd == 0 {
        return Err(String::from_str("native overlay hwnd is empty"));
    }
    apply_native_overlay_options(hwnd, options)
}

/// Hides the overlay window; off Windows only the handle is checked.
pub fn hide_native_overlay_hwnd(hwnd: isize, options: NativeOverlayOptions) -> (r: Result<
    (),
    String,
>)
    ensures
        hwnd == 0 <==> r is Err,
        r matches Err(e) ==> e@ == empty_hwnd_message(),
{
    if hwnd == 0 {
        return Err(String::from_str("native overlay hwnd is empty"));
    }
    Ok(())
}

} // verus!
