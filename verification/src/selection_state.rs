//! The drag-selection state machine of the screenshot overlay.
use vstd::prelude::*;

use crate::input::{
    DragPhase, InputContract, InputModifiers, KeyCommand, PointerButton, ScreenshotInputEvent,
};
use crate::numeric::{clamp_i32, saturating_add_i32, saturating_sub_i32};
use crate::output::SelectionRect;

verus! {

/// What one event did to the selection.
#[derive(Debug, Clone, Copy, PartialEq, Eq, Structural)]
pub enum SelectionTransition {
    Ignored,
    Armed { anchor_x: i32, anchor_y: i32 },
    Updated { rect: SelectionRect },
    Completed { rect: SelectionRect },
    Cancelled,
}

impl SelectionTransition {
    pub open spec fn spec_selection(self) -> Option<SelectionRect> {
        match self {
            SelectionTransition::Updated { rect } => Some(rect.spec_normalized()),
            SelectionTransition::Completed { rect } => Some(rect.spec_normalized()),
            _ => None,
        }
    }

    pub open spec fn spec_is_terminal(self) -> bool {
        self is Completed || self is Cancelled
    }

    pub fn selection(self) -> (r: Option<SelectionRect>)
        ensures
            r == self.spec_selection(),
    {
        match self {
            SelectionTransition::Updated { rect } | SelectionTransition::Completed { rect } => Some(
                rect.normalized(),
            ),
            _ => None,
        }
    }

    pub fn is_terminal(self) -> (r: bool)
        ensures
            r == self.spec_is_terminal(),
    {
        match self {
            SelectionTransition::Completed { .. } | SelectionTransition::Cancelled => true,
            _ => false,
        }
    }
}

/// A coarse summary of the drag phase.
#[derive(Debug, Clone, Copy, PartialEq, Eq, Structural)]
pub enum SelectionStateStatus {
    Idle,
    Selecting,
    Completed,
    Cancelled,
}

/// The drag-selection state: the input contract, the drag phase and the last pointer position.
#[derive(Debug, Clone, Copy, PartialEq, Eq)]
pub struct SelectionState {
    contract: InputContract,
    phase: DragPhase,
    last_pointer: Option<(i32, i32)>,
}

/// The mathematical model of a [`SelectionState`].
pub struct SelectionStateView {
    pub contract: InputContract,
    pub phase: DragPhase,
    pub last_pointer: Option<(i32, i32)>,
}

impl SelectionState {
    /// The model of a freshly created selection state.
    pub open spec fn new_view() -> SelectionStateView {
        SelectionStateView {
            contract: InputContract::spec_screenshot_selection(),
            phase: DragPhase::Idle,
            last_pointer: None,
        }
    }
}

impl View for SelectionState {
    type V = SelectionStateView;

    closed spec fn view(&self) -> SelectionStateView {
        SelectionStateView {
            contract: self.contract,
            phase: self.phase,
            last_pointer: self.last_pointer,
        }
    }
}

/// The rectangle spanned from an anchor to a point, with extents saturated to `i32`.
pub open spec fn rect_from_points_spec(anchor_x: i32, anchor_y: i32, x: i32, y: i32) -> SelectionRect {
    SelectionRect {
        x: anchor_x,
        y: anchor_y,
        width: clamp_i32(x - anchor_x) as i32,
        height: clamp_i32(y - anchor_y) as i32,
    }
}

/// The pointer moved at least `threshold` pixels along some axis.
pub open spec fn drag_exceeds_threshold_spec(
    anchor_x: i32,
    anchor_y: i32,
    x: i32,
    y: i32,
    threshold: u32,
) -> bool {
    let dx = if x >= anchor_x { x - anchor_x } else { anchor_x - x };
    let dy = if y >= anchor_y { y - anchor_y } else { anchor_y - y };
    dx >= threshold || dy >= threshold
}

impl SelectionStateView {
    pub open spec fn with_phase(self, phase: DragPhase) -> SelectionStateView {
        SelectionStateView { phase, ..self }
    }

    pub open spec fn status(self) -> SelectionStateStatus {
        match self.phase {
            DragPhase::Idle => SelectionStateStatus::Idle,
            DragPhase::Armed { .. } => SelectionStateStatus::Selecting,
            DragPhase::Dragging { .. } => SelectionStateStatus::Selecting,
            DragPhase::Completed { .. } => SelectionStateStatus::Completed,
            DragPhase::Cancelled => SelectionStateStatus::Cancelled,
        }
    }

    pub open spec fn completed_selection(self) -> Option<SelectionRect> {
        match self.phase {
            DragPhase::Completed { rect } => Some(rect.spec_normalized()),
            _ => None,
        }
    }

    pub open spec fn is_terminal(self) -> bool {
        self.phase is Completed || self.phase is Cancelled
    }

    pub open spec fn begin_drag(self, x: i32, y: i32) -> (SelectionStateView, SelectionTransition) {
        (
            self.with_phase(DragPhase::Armed { anchor_x: x, anchor_y: y }),
            SelectionTransition::Armed { anchor_x: x, anchor_y: y },
        )
    }

    pub open spec fn update_drag(self, x: i32, y: i32) -> (SelectionStateView, SelectionTransition) {
        match self.phase {
            DragPhase::Armed { anchor_x, anchor_y } => {
                if !drag_exceeds_threshold_spec(
                    anchor_x,
                    anchor_y,
                    x,
                    y,
                    self.contract.minimum_drag_pixels,
                ) {
                    (self, SelectionTransition::Ignored)
                } else {
                    let rect = rect_from_points_spec(anchor_x, anchor_y, x, y);
                    (
                        self.with_phase(DragPhase::Dragging { rect }),
                        SelectionTransition::Updated { rect: rect.spec_normalized() },
                    )
                }
            },
            DragPhase::Dragging { rect } => {
                let next = rect_from_points_spec(rect.x, rect.y, x, y);
                (
                    self.with_phase(DragPhase::Dragging { rect: next }),
                    SelectionTransition::Updated { rect: next.spec_normalized() },
                )
            },
            _ => (self, SelectionTransition::Ignored),
        }
    }

    pub open spec fn complete_rect(self, rect: SelectionRect) -> (
        SelectionStateView,
        SelectionTransition,
    ) {
        let r = rect.spec_normalized();
        if r.spec_is_valid() {
            (self.with_phase(DragPhase::Completed { rect: r }), SelectionTransition::Completed { rect: r })
        } else {
            (self.with_phase(DragPhase::Idle), SelectionTransition::Ignored)
        }
    }

    pub open spec fn end_drag(self, x: i32, y: i32) -> (SelectionStateView, SelectionTransition) {
        match self.phase {
            DragPhase::Armed { anchor_x, anchor_y } => {
                if !drag_exceeds_threshold_spec(
                    anchor_x,
                    anchor_y,
                    x,
                    y,
                    self.contract.minimum_drag_pixels,
                ) {
                    (self.with_phase(DragPhase::Idle), SelectionTransition::Ignored)
                } else {
                    self.complete_rect(rect_from_points_spec(anchor_x, anchor_y, x, y))
                }
            },
            DragPhase::Dragging { rect } => self.complete_rect(
                rect_from_points_spec(rect.x, rect.y, x, y),
            ),
            _ => (self, SelectionTransition::Ignored),
        }
    }

    pub open spec fn confirm(self) -> (SelectionStateView, SelectionTransition) {
        match self.phase.spec_selection() {
            Some(rect) => if rect.spec_is_valid() {
                (self.with_phase(DragPhase::Completed { rect }), SelectionTransition::Completed { rect })
            } else {
                (self, SelectionTransition::Ignored)
            },
            None => (self, SelectionTransition::Ignored),
        }
    }

    pub open spec fn cancel(self) -> (SelectionStateView, SelectionTransition) {
        (self.with_phase(DragPhase::Cancelled), SelectionTransition::Cancelled)
    }

    /// Moving (or, with `resize`, growing) the current selection by `(dx, dy)`.
    pub open spec fn adjust_selection(self, dx: i32, dy: i32, resize: bool) -> (
        SelectionStateView,
        SelectionTransition,
    ) {
        match self.phase.spec_selection() {
            None => (self, SelectionTransition::Ignored),
            Some(rect) => {
                let next = if resize {
                    SelectionRect {
                        x: rect.x,
                        y: rect.y,
                        width: clamp_i32(rect.width + dx) as i32,
                        height: clamp_i32(rect.height + dy) as i32,
                    }
                } else {
                    SelectionRect {
                        x: clamp_i32(rect.x + dx) as i32,
                        y: clamp_i32(rect.y + dy) as i32,
                        width: rect.width,
                        height: rect.height,
                    }
                }.spec_normalized();
                if !next.spec_is_valid() {
                    (self, SelectionTransition::Ignored)
                } else {
                    let phase = match self.phase {
                        DragPhase::Completed { .. } => DragPhase::Completed { rect: next },
                        DragPhase::Dragging { .. } => DragPhase::Dragging { rect: next },
                        _ => self.phase,
                    };
                    (self.with_phase(phase), SelectionTransition::Updated { rect: next })
                }
            },
        }
    }

    pub open spec fn handle_key_command(self, command: KeyCommand, modifiers: InputModifiers) -> (
        SelectionStateView,
        SelectionTransition,
    ) {
        match command {
            KeyCommand::Confirm => self.confirm(),
            KeyCommand::Cancel => self.cancel(),
            KeyCommand::RepeatHotkey => if self.contract.allow_repeat_hotkey_cancel {
                self.cancel()
            } else {
                (self, SelectionTransition::Ignored)
            },
            KeyCommand::Nudge { dx, dy } => if self.contract.allow_keyboard_adjustment
                && !modifiers.spec_any() {
                self.adjust_selection(dx, dy, false)
            } else {
                (self, SelectionTransition::Ignored)
            },
            KeyCommand::Resize { dx, dy } => if self.contract.allow_keyboard_adjustment
                && !modifiers.spec_any() {
                self.adjust_selection(dx, dy, true)
            } else {
                (self, SelectionTransition::Ignored)
            },
        }
    }

    /// One step of the state machine: the pointer position is recorded, then the event
    /// is dispatched.
    pub open spec fn handle_event(self, event: ScreenshotInputEvent) -> (
        SelectionStateView,
        SelectionTransition,
    ) {
        let s = match event.spec_pointer_position() {
            Some(p) => SelectionStateView { last_pointer: Some(p), ..self },
            None => self,
        };
        match event {
            ScreenshotInputEvent::MouseDown { x, y } => s.begin_drag(x, y),
            ScreenshotInputEvent::MouseMove { x, y } => s.update_drag(x, y),
            ScreenshotInputEvent::MouseUp { x, y } => s.end_drag(x, y),
            ScreenshotInputEvent::PointerDown { x, y, button, .. } => if button
                == PointerButton::Primary {
                s.begin_drag(x, y)
            } else {
                (s, SelectionTransition::Ignored)
            },
            ScreenshotInputEvent::PointerMove { x, y, .. } => s.update_drag(x, y),
            ScreenshotInputEvent::PointerUp { x, y, button, .. } => if button
                == PointerButton::Primary {
                s.end_drag(x, y)
            } else {
                (s, SelectionTransition::Ignored)
            },
            ScreenshotInputEvent::Key { command, modifiers } => s.handle_key_command(
                command,
                modifiers,
            ),
            ScreenshotInputEvent::Confirm => s.confirm(),
            ScreenshotInputEvent::Cancel => s.cancel(),
            ScreenshotInputEvent::LostFocus => s.cancel(),
            ScreenshotInputEvent::RepeatHotkey => if s.contract.allow_repeat_hotkey_cancel {
                s.cancel()
            } else {
                (s, SelectionTransition::Ignored)
            },
            ScreenshotInputEvent::Wheel { .. } => (s, SelectionTransition::Ignored),
        }
    }

    /// A completed selection is always a valid rectangle in normal form.
    pub open spec fn well_formed(self) -> bool {
        match self.phase {
            DragPhase::Completed { rect } => rect.spec_is_valid() && rect.spec_normalized() == rect,
            _ => true,
        }
    }
}

fn rect_from_points(anchor_x: i32, anchor_y: i32, x: i32, y: i32) -> (r: SelectionRect)
    ensures
        r == rect_from_points_spec(anchor_x, anchor_y, x, y),
{
    SelectionRect::new(
        anchor_x,
        anchor_y,
        saturating_sub_i32(x, anchor_x),
        saturating_sub_i32(y, anchor_y),
    )
}

fn drag_exceeds_threshold(anchor_x: i32, anchor_y: i32, x: i32, y: i32, threshold: u32) -> (r:
    bool)
    ensures
        r == drag_exceeds_threshold_spec(anchor_x, anchor_y, x, y, threshold),
{
    let dx: i64 = if x >= anchor_x { x as i64 - anchor_x as i64 } else { anchor_x as i64 - x as i64 };
    let dy: i64 = if y >= anchor_y { y as i64 - anchor_y as i64 } else { anchor_y as i64 - y as i64 };
    let m: i64 = if dx >= dy { dx } else { dy };
    m >= threshold as i64
}

impl Default for SelectionState {
    fn default() -> (r: Self)
        ensures
            r@.contract == InputContract::spec_screenshot_selection(),
            r@.phase == DragPhase::Idle,
            r@.last_pointer is None,
    {
        Self::new()
    }
}

impl SelectionState {
    pub fn new() -> (r: Self)
        ensures
            r@.contract == InputContract::spec_screenshot_selection(),
            r@.phase == DragPhase::Idle,
            r@.last_pointer is None,
    {
        Self::with_contract(InputContract::screenshot_selection())
    }

    pub fn with_contract(contract: InputContract) -> (r: Self)
        ensures
            r@.contract == contract,
            r@.phase == DragPhase::Idle,
            r@.last_pointer is None,
    {
        Self { contract, phase: DragPhase::Idle, last_pointer: None }
    }

    pub fn contract(self) -> (r: InputContract)
        ensures
            r == self@.contract,
    {
        self.contract
    }

    pub fn phase(self) -> (r: DragPhase)
        ensures
            r == self@.phase,
    {
        self.phase
    }

    pub fn status(self) -> (r: SelectionStateStatus)
        ensures
            r == self@.status(),
    {
        match self.phase {
            DragPhase::Idle => SelectionStateStatus::Idle,
            DragPhase::Armed { .. } | DragPhase::Dragging { .. } => SelectionStateStatus::Selecting,
            DragPhase::Completed { .. } => SelectionStateStatus::Completed,
            DragPhase::Cancelled => SelectionStateStatus::Cancelled,
        }
    }

    pub fn selection(self) -> (r: Option<SelectionRect>)
        ensures
            r == self@.phase.spec_selection(),
    {
        self.phase.selection()
    }

    pub fn completed_selection(self) -> (r: Option<SelectionRect>)
        ensures
            r == self@.completed_selection(),
    {
        match self.phase {
            DragPhase::Completed { rect } => Some(rect.normalized()),
            _ => None,
        }
    }

    pub fn is_active(self) -> (r: bool)
        ensures
            r == self@.phase.spec_is_active(),
    {
        self.phase.is_active()
    }

    pub fn is_terminal(self) -> (r: bool)
        ensures
            r == self@.is_terminal(),
    {
        match self.phase {
            DragPhase::Completed { .. } | DragPhase::Cancelled => true,
            _ => false,
        }
    }

    pub fn reset(&mut self)
        ensures
            final(self)@.contract == old(self)@.contract,
            final(self)@.phase == DragPhase::Idle,
            final(self)@.last_pointer is None,
    {
        self.phase = DragPhase::Idle;
        self.last_pointer = None;
    }

    pub fn handle_event(&mut self, event: ScreenshotInputEvent) -> (r: SelectionTransition)
        ensures
            (final(self)@, r) == old(self)@.handle_event(event),
    {
        if let Some(pointer) = event.pointer_position() {
            self.last_pointer = Some(pointer);
        }
        match event {
            ScreenshotInputEvent::MouseDown { x, y } => self.begin_drag(x, y),
            ScreenshotInputEvent::MouseMove { x, y } => self.update_drag(x, y),
            ScreenshotInputEvent::MouseUp { x, y } => self.end_drag(x, y),
            ScreenshotInputEvent::PointerDown { x, y, button, .. } => {
                self.handle_pointer_down(x, y, button)
            },
            ScreenshotInputEvent::PointerMove { x, y, .. } => self.update_drag(x, y),
            ScreenshotInputEvent::PointerUp { x, y, button, .. } => {
                self.handle_pointer_up(x, y, button)
            },
            ScreenshotInputEvent::Key { command, modifiers } => {
                self.handle_key_command(command, modifiers)
            },
            ScreenshotInputEvent::Confirm => self.confirm(),
            ScreenshotInputEvent::Cancel | ScreenshotInputEvent::LostFocus => self.cancel(),
            ScreenshotInputEvent::RepeatHotkey => {
                if self.contract.allow_repeat_hotkey_cancel {
                    self.cancel()
                } else {
                    SelectionTransition::Ignored
                }
            },
            ScreenshotInputEvent::Wheel { .. } => SelectionTransition::Ignored,
        }
    }

    pub fn confirm(&mut self) -> (r: SelectionTransition)
        ensures
            (final(self)@, r) == old(self)@.confirm(),
    {
        match self.phase.selection() {
            Some(rect) => {
                if rect.is_valid() {
                    self.phase = DragPhase::Completed { rect };
                    SelectionTransition::Completed { rect }
                } else {
                    SelectionTransition::Ignored
                }
            },
            None => SelectionTransition::Ignored,
        }
    }

    pub fn cancel(&mut self) -> (r: SelectionTransition)
        ensures
            (final(self)@, r) == old(self)@.cancel(),
    {
        self.phase = DragPhase::Cancelled;
        SelectionTransition::Cancelled
    }

    fn handle_pointer_down(&mut self, x: i32, y: i32, button: PointerButton) -> (r:
        SelectionTransition)
        ensures
            (final(self)@, r) == (if button == PointerButton::Primary {
                old(self)@.begin_drag(x, y)
            } else {
                (old(self)@, SelectionTransition::Ignored)
            }),
    {
        if button == PointerButton::Primary {
            self.begin_drag(x, y)
        } else {
            SelectionTransition::Ignored
        }
    }

    fn handle_pointer_up(&mut self, x: i32, y: i32, button: PointerButton) -> (r:
        SelectionTransition)
        ensures
            (final(self)@, r) == (if button == PointerButton::Primary {
                old(self)@.end_drag(x, y)
            } else {
                (old(self)@, SelectionTransition::Ignored)
            }),
    {
        if button == PointerButton::Primary {
            self.end_drag(x, y)
        } else {
            SelectionTransition::Ignored
        }
    }

    fn handle_key_command(&mut self, command: KeyCommand, modifiers: InputModifiers) -> (r:
        SelectionTransition)
        ensures
            (final(self)@, r) == old(self)@.handle_key_command(command, modifiers),
    {
        match command {
            KeyCommand::Confirm => self.confirm(),
            KeyCommand::Cancel => self.cancel(),
            KeyCommand::RepeatHotkey => {
                if self.contract.allow_repeat_hotkey_cancel {
                    self.cancel()
                } else {
                    SelectionTransition::Ignored
                }
            },
            KeyCommand::Nudge { dx, dy } => {
                if self.contract.allow_keyboard_adjustment && !modifiers.any() {
                    self.adjust_selection(dx, dy, false)
                } else {
                    SelectionTransition::Ignored
                }
            },
            KeyCommand::Resize { dx, dy } => {
                if self.contract.allow_keyboard_adjustment && !modifiers.any() {
                    self.adjust_selection(dx, dy, true)
                } else {
                    SelectionTransition::Ignored
                }
            },
        }
    }

    fn begin_drag(&mut self, x: i32, y: i32) -> (r: SelectionTransition)
        ensures
            (final(self)@, r) == old(self)@.begin_drag(x, y),
    {
        self.phase = DragPhase::Armed { anchor_x: x, anchor_y: y };
        SelectionTransition::Armed { anchor_x: x, anchor_y: y }
    }

    fn update_drag(&mut self, x: i32, y: i32) -> (r: SelectionTransition)
        ensures
            (final(self)@, r) == old(self)@.update_drag(x, y),
    {
        match self.phase {
            DragPhase::Armed { anchor_x, anchor_y } => {
                if !drag_exceeds_threshold(
                    anchor_x,
                    anchor_y,
                    x,
                    y,
                    self.contract.minimum_drag_pixels,
                ) {
                    return SelectionTransition::Ignored;
                }
                let rect = rect_from_points(anchor_x, anchor_y, x, y);
                self.phase = DragPhase::Dragging { rect };
                SelectionTransition::Updated { rect: rect.normalized() }
            },
            DragPhase::Dragging { rect } => {
                let next = rect_from_points(rect.x, rect.y, x, y);
                self.phase = DragPhase::Dragging { rect: next };
                SelectionTransition::Updated { rect: next.normalized() }
            },
            _ => SelectionTransition::Ignored,
        }
    }

    fn end_drag(&mut self, x: i32, y: i32) -> (r: SelectionTransition)
        ensures
            (final(self)@, r) == old(self)@.end_drag(x, y),
    {
        match self.phase {
            DragPhase::Armed { anchor_x, anchor_y } => {
                if !drag_exceeds_threshold(
                    anchor_x,
                    anchor_y,
                    x,
                    y,
                    self.contract.minimum_drag_pixels,
                ) {
                    self.phase = DragPhase::Idle;
                    return SelectionTransition::Ignored;
                }
                self.complete_rect(rect_from_points(anchor_x, anchor_y, x, y))
            },
            DragPhase::Dragging { rect } => self.complete_rect(
                rect_from_points(rect.x, rect.y, x, y),
            ),
            _ => SelectionTransition::Ignored,
        }
    }

    fn complete_rect(&mut self, rect: SelectionRect) -> (r: SelectionTransition)
        ensures
            (final(self)@, r) == old(self)@.complete_rect(rect),
    {
        let r = rect.normalized();
        if r.is_valid() {
            self.phase = DragPhase::Completed { rect: r };
            SelectionTransition::Completed { rect: r }
        } else {
            self.phase = DragPhase::Idle;
            SelectionTransition::Ignored
        }
    }

    fn adjust_selection(&mut self, dx: i32, dy: i32, resize: bool) -> (r: SelectionTransition)
        ensures
            (final(self)@, r) == old(self)@.adjust_selection(dx, dy, resize),
    {
        let rect = match self.phase.selection() {
            Some(rect) => rect,
            None => {
                return SelectionTransition::Ignored;
            },
        };
        let next = if resize {
            SelectionRect::new(
                rect.x,
                rect.y,
                saturating_add_i32(rect.width, dx),
                saturating_add_i32(rect.height, dy),
            )
        } else {
            SelectionRect::new(
                saturating_add_i32(rect.x, dx),
                saturating_add_i32(rect.y, dy),
                rect.width,
                rect.height,
            )
        }.normalized();
        if !next.is_valid() {
            return SelectionTransition::Ignored;
        }
        self.phase = match self.phase {
            DragPhase::Completed { .. } => DragPhase::Completed { rect: next },
            DragPhase::Dragging { .. } => DragPhase::Dragging { rect: next },
            _ => self.phase,
        };
        SelectionTransition::Updated { rect: next }
    }
}


/// Normalizing a rectangle twice gives the same rectangle as normalizing it once.
pub proof fn normalized_is_idempotent(rect: SelectionRect)
    ensures
        rect.spec_normalized().spec_normalized() == rect.spec_normalized(),
{
}

/// Every event keeps the state well formed: a completed selection is always a valid,
/// normalized rectangle.
pub proof fn handle_event_preserves_well_formed(state: SelectionStateView, event: ScreenshotInputEvent)
    requires
        state.well_formed(),
    ensures
        state.handle_event(event).0.well_formed(),
{
    let s = match event.spec_pointer_position() {
        Some(p) => SelectionStateView { last_pointer: Some(p), ..state },
        None => state,
    };
    assert(s.well_formed());
    match s.phase {
        DragPhase::Armed { anchor_x, anchor_y } => {
            normalized_is_idempotent(rect_from_points_spec(anchor_x, anchor_y, 0, 0));
        },
        DragPhase::Dragging { rect } => {
            normalized_is_idempotent(rect);
        },
        DragPhase::Completed { rect } => {
            normalized_is_idempotent(rect);
        },
        _ => {},
    }
    match event {
        ScreenshotInputEvent::MouseUp { x, y } => end_drag_well_formed(s, x, y),
        ScreenshotInputEvent::PointerUp { x, y, .. } => end_drag_well_formed(s, x, y),
        ScreenshotInputEvent::Key { command, modifiers } => {
            match command {
                KeyCommand::Nudge { dx, dy } => adjust_well_formed(s, dx, dy, false),
                KeyCommand::Resize { dx, dy } => adjust_well_formed(s, dx, dy, true),
                KeyCommand::Confirm => confirm_well_formed(s),
                _ => {},
            }
        },
        ScreenshotInputEvent::Confirm => confirm_well_formed(s),
        _ => {},
    }
}

proof fn complete_rect_well_formed(s: SelectionStateView, rect: SelectionRect)
    ensures
        s.complete_rect(rect).0.well_formed(),
{
    normalized_is_idempotent(rect);
}

proof fn end_drag_well_formed(s: SelectionStateView, x: i32, y: i32)
    requires
        s.well_formed(),
    ensures
        s.end_drag(x, y).0.well_formed(),
{
    match s.phase {
        DragPhase::Armed { anchor_x, anchor_y } => {
            complete_rect_well_formed(s, rect_from_points_spec(anchor_x, anchor_y, x, y));
        },
        DragPhase::Dragging { rect } => {
            complete_rect_well_formed(s, rect_from_points_spec(rect.x, rect.y, x, y));
        },
        _ => {},
    }
}

proof fn confirm_well_formed(s: SelectionStateView)
    requires
        s.well_formed(),
    ensures
        s.confirm().0.well_formed(),
{
    match s.phase {
        DragPhase::Dragging { rect } => normalized_is_idempotent(rect),
        DragPhase::Completed { rect } => normalized_is_idempotent(rect),
        _ => {},
    }
}

proof fn adjust_well_formed(s: SelectionStateView, dx: i32, dy: i32, resize: bool)
    requires
        s.well_formed(),
    ensures
        s.adjust_selection(dx, dy, resize).0.well_formed(),
{
    match s.phase.spec_selection() {
        None => {},
        Some(rect) => {
            let next = if resize {
                SelectionRect {
                    x: rect.x,
                    y: rect.y,
                    width: clamp_i32(rect.width + dx) as i32,
                    height: clamp_i32(rect.height + dy) as i32,
                }
            } else {
                SelectionRect {
                    x: clamp_i32(rect.x + dx) as i32,
                    y: clamp_i32(rect.y + dy) as i32,
                    width: rect.width,
                    height: rect.height,
                }
            };
            normalized_is_idempotent(next);
        },
    }
}

/// A terminal transition leaves the state terminal: `Completed` carries the valid,
/// normalized rectangle that the state now holds as its completed selection, and
/// `Cancelled` leaves the state cancelled.
pub proof fn terminal_transition_matches_state(state: SelectionStateView, event: ScreenshotInputEvent)
    requires
        state.well_formed(),
    ensures
        ({
            let (next, transition) = state.handle_event(event);
            &&& transition matches SelectionTransition::Completed { rect } ==> {
                &&& rect.spec_is_valid()
                &&& rect.spec_normalized() == rect
                &&& next.completed_selection() == Some(rect)
                &&& next.status() == SelectionStateStatus::Completed
            }
            &&& transition is Cancelled ==> next.status() == SelectionStateStatus::Cancelled
            &&& transition.spec_is_terminal() ==> next.is_terminal()
        }),
{
    handle_event_preserves_well_formed(state, event);
    let (next, transition) = state.handle_event(event);
    if let SelectionTransition::Completed { rect } = transition {
        assert(next.phase == DragPhase::Completed { rect });
        normalized_is_idempotent(rect);
    }
}

/// Cancel, loss of focus and the cancel key always end the selection as cancelled.
pub proof fn cancel_events_always_cancel(state: SelectionStateView, event: ScreenshotInputEvent)
    requires
        event is Cancel || event is LostFocus || (event matches ScreenshotInputEvent::Key {
            command,
            ..
        } && command is Cancel),
    ensures
        state.handle_event(event).1 == SelectionTransition::Cancelled,
        state.handle_event(event).0.status() == SelectionStateStatus::Cancelled,
        state.handle_event(event).0.contract == state.contract,
{
}

/// A primary press always arms a fresh drag at the pressed point, whatever came
/// before, so a new selection can start after a cancelled or completed one.
pub proof fn primary_press_arms_drag(state: SelectionStateView, x: i32, y: i32)
    ensures
        state.handle_event(ScreenshotInputEvent::MouseDown { x, y }).0.phase == (DragPhase::Armed {
            anchor_x: x,
            anchor_y: y,
        }),
        state.handle_event(ScreenshotInputEvent::MouseDown { x, y }).1 == (SelectionTransition::Armed {
            anchor_x: x,
            anchor_y: y,
        }),
{
}

/// A completed selection is never changed by pointer motion or a second release:
/// only a new press, a confirm, a cancel or a keyboard adjustment act on it.
pub proof fn completed_selection_ignores_motion(state: SelectionStateView, x: i32, y: i32)
    requires
        state.phase is Completed,
    ensures
        state.handle_event(ScreenshotInputEvent::MouseMove { x, y }).1 == SelectionTransition::Ignored,
        state.handle_event(ScreenshotInputEvent::MouseMove { x, y }).0.phase == state.phase,
        state.handle_event(ScreenshotInputEvent::MouseUp { x, y }).1 == SelectionTransition::Ignored,
        state.handle_event(ScreenshotInputEvent::MouseUp { x, y }).0.phase == state.phase,
{
}


/// A nudge moves the current selection by exactly `(dx, dy)`, saturating at the `i32`
/// range, and keeps its width and height; the drag keeps its phase with the moved
/// rectangle.
pub proof fn nudge_moves_selection_by_offset(
    state: SelectionStateView,
    dx: i32,
    dy: i32,
    modifiers: InputModifiers,
)
    requires
        state.contract.allow_keyboard_adjustment,
        !modifiers.spec_any(),
        state.phase.spec_selection() matches Some(rect) && rect.spec_is_valid(),
    ensures
        ({
            let rect = state.phase.spec_selection()->Some_0;
            let step = state.handle_event(
                ScreenshotInputEvent::Key { command: KeyCommand::Nudge { dx, dy }, modifiers },
            );
            &&& step.1 matches SelectionTransition::Updated { rect: moved }
            &&& moved.width == rect.width && moved.height == rect.height
            &&& moved.x == clamp_i32(rect.x + dx) && moved.y == clamp_i32(rect.y + dy)
            &&& (i32::MIN <= rect.x + dx <= i32::MAX ==> moved.x - rect.x == dx)
            &&& (i32::MIN <= rect.y + dy <= i32::MAX ==> moved.y - rect.y == dy)
            &&& step.0.phase.spec_selection() == Some(moved)
            &&& step.0.status() == state.status()
        }),
{
    let rect = state.phase.spec_selection()->Some_0;
    let moved = SelectionRect {
        x: clamp_i32(rect.x + dx) as i32,
        y: clamp_i32(rect.y + dy) as i32,
        width: rect.width,
        height: rect.height,
    };
    assert(moved.spec_normalized() == moved);
}

/// A resize keeps the origin of the current selection and grows its width and height by
/// exactly `(dx, dy)`, saturating at the `i32` range, as long as both stay positive.
pub proof fn resize_grows_selection_by_offset(
    state: SelectionStateView,
    dx: i32,
    dy: i32,
    modifiers: InputModifiers,
)
    requires
        state.contract.allow_keyboard_adjustment,
        !modifiers.spec_any(),
        state.phase.spec_selection() matches Some(rect) && rect.spec_is_valid() && clamp_i32(
            rect.width + dx,
        ) > 0 && clamp_i32(rect.height + dy) > 0,
    ensures
        ({
            let rect = state.phase.spec_selection()->Some_0;
            let step = state.handle_event(
                ScreenshotInputEvent::Key { command: KeyCommand::Resize { dx, dy }, modifiers },
            );
            &&& step.1 matches SelectionTransition::Updated { rect: grown }
            &&& grown.x == rect.x && grown.y == rect.y
            &&& grown.width == clamp_i32(rect.width + dx) && grown.height == clamp_i32(rect.height + dy)
            &&& (rect.width + dx <= i32::MAX ==> grown.width - rect.width == dx)
            &&& (rect.height + dy <= i32::MAX ==> grown.height - rect.height == dy)
            &&& step.0.phase.spec_selection() == Some(grown)
        }),
{
    let rect = state.phase.spec_selection()->Some_0;
    let grown = SelectionRect {
        x: rect.x,
        y: rect.y,
        width: clamp_i32(rect.width + dx) as i32,
        height: clamp_i32(rect.height + dy) as i32,
    };
    assert(grown.spec_normalized() == grown);
}


/// A nudge or resize pressed with any modifier key does nothing.
pub proof fn modified_adjustment_is_ignored(
    state: SelectionStateView,
    dx: i32,
    dy: i32,
    resize: bool,
    modifiers: InputModifiers,
)
    requires
        modifiers.spec_any(),
    ensures
        ({
            let command = if resize {
                KeyCommand::Resize { dx, dy }
            } else {
                KeyCommand::Nudge { dx, dy }
            };
            let step = state.handle_event(ScreenshotInputEvent::Key { command, modifiers });
            step.1 == SelectionTransition::Ignored && step.0 == state
        }),
{
}

} // verus!
