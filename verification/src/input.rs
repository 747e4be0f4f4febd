//! Pointer and keyboard events that drive an on-screen selection.
use vstd::prelude::*;

use crate::output::SelectionRect;

verus! {

/// Modifier keys held during an event.
#[derive(Debug, Clone, Copy, PartialEq, Eq, Structural)]
pub struct InputModifiers {
    pub shift: bool,
    pub ctrl: bool,
    pub alt: bool,
    pub meta: bool,
}

impl InputModifiers {
    pub open spec fn spec_any(self) -> bool {
        self.shift || self.ctrl || self.alt || self.meta
    }

    pub fn none() -> (r: Self)
        ensures
            !r.shift && !r.ctrl && !r.alt && !r.meta,
    {
        Self { shift: false, ctrl: false, alt: false, meta: false }
    }

    pub fn any(self) -> (r: bool)
        ensures
            r == self.spec_any(),
    {
        self.shift || self.ctrl || self.alt || self.meta
    }
}

impl Default for InputModifiers {
    fn default() -> (r: Self)
        ensures
            !r.spec_any(),
    {
        Self::none()
    }
}

/// Which pointer button an event concerns.
#[derive(Debug, Clone, Copy, PartialEq, Eq, Structural)]
pub enum PointerButton {
    Primary,
    Secondary,
    Middle,
    Other(u16),
}

/// A keyboard command.
#[derive(Debug, Clone, Copy, PartialEq, Eq, Structural)]
pub enum KeyCommand {
    Confirm,
    Cancel,
    RepeatHotkey,
    Nudge { dx: i32, dy: i32 },
    Resize { dx: i32, dy: i32 },
}

/// The phase of a drag selection.
#[derive(Debug, Clone, Copy, PartialEq, Eq, Structural)]
pub enum DragPhase {
    Idle,
    Armed { anchor_x: i32, anchor_y: i32 },
    Dragging { rect: SelectionRect },
    Completed { rect: SelectionRect },
    Cancelled,
}

impl DragPhase {
    /// The normalized rectangle of a drag in progress or a completed drag.
    pub open spec fn spec_selection(self) -> Option<SelectionRect> {
        match self {
            DragPhase::Dragging { rect } => Some(rect.spec_normalized()),
            DragPhase::Completed { rect } => Some(rect.spec_normalized()),
            _ => None,
        }
    }

    pub open spec fn spec_is_active(self) -> bool {
        self is Armed || self is Dragging
    }

    pub fn selection(self) -> (r: Option<SelectionRect>)
        ensures
            r == self.spec_selection(),
    {
        match self {
            DragPhase::Dragging { rect } => Some(rect.normalized()),
            DragPhase::Completed { rect } => Some(rect.normalized()),
            _ => None,
        }
    }

    pub fn is_active(self) -> (r: bool)
        ensures
            r == self.spec_is_active(),
    {
        match self {
            DragPhase::Armed { .. } | DragPhase::Dragging { .. } => true,
            _ => false,
        }
    }
}

/// An input event delivered to the selection overlay.
#[derive(Debug, Clone, Copy, PartialEq, Eq, Structural)]
pub enum ScreenshotInputEvent {
    MouseDown { x: i32, y: i32 },
    MouseMove { x: i32, y: i32 },
    MouseUp { x: i32, y: i32 },
    PointerDown { x: i32, y: i32, button: PointerButton, modifiers: InputModifiers },
    PointerMove { x: i32, y: i32, modifiers: InputModifiers },
    PointerUp { x: i32, y: i32, button: PointerButton, modifiers: InputModifiers },
    Wheel { x: i32, y: i32, delta_x: i32, delta_y: i32, modifiers: InputModifiers },
    Key { command: KeyCommand, modifiers: InputModifiers },
    LostFocus,
    Confirm,
    Cancel,
    RepeatHotkey,
}

impl ScreenshotInputEvent {
    pub open spec fn spec_pointer_position(self) -> Option<(i32, i32)> {
        match self {
            ScreenshotInputEvent::MouseDown { x, y } => Some((x, y)),
            ScreenshotInputEvent::MouseMove { x, y } => Some((x, y)),
            ScreenshotInputEvent::MouseUp { x, y } => Some((x, y)),
            ScreenshotInputEvent::PointerDown { x, y, .. } => Some((x, y)),
            ScreenshotInputEvent::PointerMove { x, y, .. } => Some((x, y)),
            ScreenshotInputEvent::PointerUp { x, y, .. } => Some((x, y)),
            ScreenshotInputEvent::Wheel { x, y, .. } => Some((x, y)),
            _ => None,
        }
    }

    pub open spec fn spec_is_terminal(self) -> bool {
        self is Confirm || self is Cancel || self is LostFocus
    }

    pub open spec fn spec_key_command(self) -> Option<KeyCommand> {
        match self {
            ScreenshotInputEvent::Confirm => Some(KeyCommand::Confirm),
            ScreenshotInputEvent::Cancel => Some(KeyCommand::Cancel),
            ScreenshotInputEvent::RepeatHotkey => Some(KeyCommand::RepeatHotkey),
            ScreenshotInputEvent::Key { command, .. } => Some(command),
            _ => None,
        }
    }

    pub fn pointer_position(self) -> (r: Option<(i32, i32)>)
        ensures
            r == self.spec_pointer_position(),
    {
        match self {
            ScreenshotInputEvent::MouseDown { x, y }
            | ScreenshotInputEvent::MouseMove { x, y }
            | ScreenshotInputEvent::MouseUp { x, y }
            | ScreenshotInputEvent::PointerDown { x, y, .. }
            | ScreenshotInputEvent::PointerMove { x, y, .. }
            | ScreenshotInputEvent::PointerUp { x, y, .. }
            | ScreenshotInputEvent::Wheel { x, y, .. } => Some((x, y)),
            _ => None,
        }
    }

    pub fn is_terminal(self) -> (r: bool)
        ensures
            r == self.spec_is_terminal(),
    {
        match self {
            ScreenshotInputEvent::Confirm
            | ScreenshotInputEvent::Cancel
            | ScreenshotInputEvent::LostFocus => true,
            _ => false,
        }
    }

    pub fn key_command(self) -> (r: Option<KeyCommand>)
        ensures
            r == self.spec_key_command(),
    {
        match self {
            ScreenshotInputEvent::Confirm => Some(KeyCommand::Confirm),
            ScreenshotInputEvent::Cancel => Some(KeyCommand::Cancel),
            ScreenshotInputEvent::RepeatHotkey => Some(KeyCommand::RepeatHotkey),
            ScreenshotInputEvent::Key { command, .. } => Some(command),
            _ => None,
        }
    }
}

/// How the selection reacts to repeat hotkeys, keyboard adjustment and small drags.
#[derive(Debug, Clone, Copy, PartialEq, Eq, Structural)]
pub struct InputContract {
    pub allow_repeat_hotkey_cancel: bool,
    pub allow_keyboard_adjustment: bool,
    pub minimum_drag_pixels: u32,
}

impl InputContract {
    pub open spec fn spec_screenshot_selection() -> InputContract {
        InputContract {
            allow_repeat_hotkey_cancel: true,
            allow_keyboard_adjustment: true,
            minimum_drag_pixels: 2,
        }
    }

    pub fn screenshot_selection() -> (r: Self)
        ensures
            r == Self::spec_screenshot_selection(),
    {
        Self {
            allow_repeat_hotkey_cancel: true,
            allow_keyboard_adjustment: true,
            minimum_drag_pixels: 2,
        }
    }
}

} // verus!
