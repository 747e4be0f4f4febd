//! Synthetic native-input smokes: a drag and a cancel replayed through the selection state.
use vstd::prelude::*;

use crate::input::{InputModifiers, KeyCommand, PointerButton, ScreenshotInputEvent};
use crate::output::SelectionRect;
use crate::selection_state::{SelectionState, SelectionStateStatus, SelectionStateView, SelectionTransition};

verus! {

/// How a smoke ended.
#[derive(Debug, Clone, Copy, PartialEq, Eq, Structural)]
pub enum NativeInputSmokeStatus {
    Completed,
    Cancelled,
    Incomplete,
    DecodeFailed,
}

impl NativeInputSmokeStatus {
    pub open spec fn spec_as_str(self) -> Seq<char> {
        match self {
            NativeInputSmokeStatus::Completed => "completed"@,
            NativeInputSmokeStatus::Cancelled => "cancelled"@,
            NativeInputSmokeStatus::Incomplete => "incomplete"@,
            NativeInputSmokeStatus::DecodeFailed => "decode-failed"@,
        }
    }

    pub fn as_str(self) -> (r: &'static str)
        ensures
            r@ == self.spec_as_str(),
    {
        match self {
            NativeInputSmokeStatus::Completed => "completed",
            NativeInputSmokeStatus::Cancelled => "cancelled",
            NativeInputSmokeStatus::Incomplete => "incomplete",
            NativeInputSmokeStatus::DecodeFailed => "decode-failed",
        }
    }
}

/// What a smoke replayed and where the selection ended.
#[derive(Debug, Clone, PartialEq, Eq)]
pub struct NativeInputSmokeReport {
    pub status: NativeInputSmokeStatus,
    pub transitions: Vec<&'static str>,
    pub completed_rect: Option<SelectionRect>,
    pub final_state: SelectionStateStatus,
    pub decoded_events: usize,
    pub error: Option<String>,
}

/// The `LPARAM` of a Win32 mouse message at `(x, y)`: the low word holds `x`, the high
/// word `y`, each truncated to 16 bits.
pub fn win32_point_lparam(x: i32, y: i32) -> (r: isize)
    ensures
        r == ((((y as i16) as u16) as u32) << 16 | (((x as i16) as u16) as u32)) as isize,
{
    let low = ((x as i16) as u16) as u32;
    let high = ((y as i16) as u16) as u32;
    ((high << 16) | low) as isize
}

pub open spec fn spec_transition_label(transition: SelectionTransition) -> Seq<char> {
    match transition {
        SelectionTransition::Ignored => "ignored"@,
        SelectionTransition::Armed { .. } => "armed"@,
        SelectionTransition::Updated { .. } => "updated"@,
        SelectionTransition::Completed { .. } => "completed"@,
        SelectionTransition::Cancelled => "cancelled"@,
    }
}

pub fn transition_label(transition: SelectionTransition) -> (r: &'static str)
    ensures
        r@ == spec_transition_label(transition),
{
    match transition {
        SelectionTransition::Ignored => "ignored",
        SelectionTransition::Armed { .. } => "armed",
        SelectionTransition::Updated { .. } => "updated",
        SelectionTransition::Completed { .. } => "completed",
        SelectionTransition::Cancelled => "cancelled",
    }
}

/// The state and the transitions after replaying `events` from `state`.
pub open spec fn replay(state: SelectionStateView, events: Seq<ScreenshotInputEvent>) -> (
    SelectionStateView,
    Seq<SelectionTransition>,
)
    decreases events.len(),
{
    if events.len() == 0 {
        (state, Seq::empty())
    } else {
        let (before, transitions) = replay(state, events.drop_last());
        let (after, transition) = before.handle_event(events.last());
        (after, transitions.push(transition))
    }
}

/// The events of the synthetic drag: the primary button goes down at (10, 10), moves with
/// the button held to (80, 70), and comes up there.
pub open spec fn drag_smoke_events() -> Seq<ScreenshotInputEvent> {
    let none = InputModifiers { shift: false, ctrl: false, alt: false, meta: false };
    seq![
        ScreenshotInputEvent::PointerDown { x: 10, y: 10, button: PointerButton::Primary, modifiers: none },
        ScreenshotInputEvent::PointerMove { x: 80, y: 70, modifiers: none },
        ScreenshotInputEvent::PointerUp { x: 80, y: 70, button: PointerButton::Primary, modifiers: none },
    ]
}

/// The events of the synthetic cancel: the primary button goes down at (10, 10), then
/// Escape is pressed.
pub open spec fn cancel_smoke_events() -> Seq<ScreenshotInputEvent> {
    let none = InputModifiers { shift: false, ctrl: false, alt: false, meta: false };
    seq![
        ScreenshotInputEvent::PointerDown { x: 10, y: 10, button: PointerButton::Primary, modifiers: none },
        ScreenshotInputEvent::Key { command: KeyCommand::Cancel, modifiers: none },
    ]
}

/// Replays `events` through a fresh selection state.
fn replay_events(events: &Vec<ScreenshotInputEvent>) -> (r: (SelectionState, Vec<&'static str>))
    ensures
        r.0@ == replay(SelectionState::new_view(), events@).0,
        r.1@.len() == events@.len(),
        forall|i: int| 0 <= i < events@.len() ==> #[trigger] r.1@[i]@ == spec_transition_label(
            replay(SelectionState::new_view(), events@).1[i],
        ),
{
    let mut state = SelectionState::new();
    let mut labels: Vec<&'static str> = Vec::new();
    let mut i: usize = 0;
    while i < events.len()
        invariant
            i <= events@.len(),
            state@ == replay(SelectionState::new_view(), events@.subrange(0, i as int)).0,
            labels@.len() == i,
            replay(SelectionState::new_view(), events@.subrange(0, i as int)).1.len() == i,
            forall|j: int| 0 <= j < i ==> #[trigger] labels@[j]@ == spec_transition_label(
                replay(SelectionState::new_view(), events@.subrange(0, i as int)).1[j],
            ),
        decreases events@.len() - i,
    {
        let ghost prefix = events@.subrange(0, i as int);
        let ghost next = events@.subrange(0, i + 1);
        assert(next.drop_last() =~= prefix);
        assert(next.last() == events@[i as int]);
        let transition = state.handle_event(events[i]);
        labels.push(transition_label(transition));
        i = i + 1;
    }
    assert(events@.subrange(0, events@.len() as int) =~= events@);
    (state, labels)
}

/// Replays the synthetic drag. It completes when the replay leaves a completed selection.
pub fn run_synthetic_native_drag_smoke() -> (r: NativeInputSmokeReport)
    ensures
        ({
            let (last, transitions) = replay(SelectionState::new_view(), drag_smoke_events());
            &&& r.status == (if last.completed_selection() is Some {
                NativeInputSmokeStatus::Completed
            } else {
                NativeInputSmokeStatus::Incomplete
            })
            &&& r.completed_rect == last.completed_selection()
            &&& r.final_state == last.status()
            &&& r.decoded_events == 3
            &&& r.transitions@.len() == 3
            &&& forall|i: int| 0 <= i < 3 ==> #[trigger] r.transitions@[i]@ == spec_transition_label(
                transitions[i],
            )
            &&& r.error is None
        }),
{
    let none = InputModifiers::none();
    let mut events: Vec<ScreenshotInputEvent> = Vec::new();
    events.push(
        ScreenshotInputEvent::PointerDown { x: 10, y: 10, button: PointerButton::Primary, modifiers: none },
    );
    events.push(ScreenshotInputEvent::PointerMove { x: 80, y: 70, modifiers: none });
    events.push(
        ScreenshotInputEvent::PointerUp { x: 80, y: 70, button: PointerButton::Primary, modifiers: none },
    );
    assert(events@ =~= drag_smoke_events());
    let (state, transitions) = replay_events(&events);
    let completed_rect = state.completed_selection();
    let status = if completed_rect.is_some() {
        NativeInputSmokeStatus::Completed
    } else {
        NativeInputSmokeStatus::Incomplete
    };
    NativeInputSmokeReport {
        status,
        transitions,
        completed_rect,
        final_state: state.status(),
        decoded_events: events.len(),
        error: None,
    }
}

/// Replays the synthetic cancel. It is cancelled when the replay leaves the selection
/// cancelled.
pub fn run_synthetic_native_cancel_smoke() -> (r: NativeInputSmokeReport)
    ensures
        ({
            let (last, transitions) = replay(SelectionState::new_view(), cancel_smoke_events());
            &&& r.status == (if last.status() == SelectionStateStatus::Cancelled {
                NativeInputSmokeStatus::Cancelled
            } else {
                NativeInputSmokeStatus::Incomplete
            })
            &&& r.completed_rect == last.completed_selection()
            &&& r.final_state == last.status()
            &&& r.decoded_events == 2
            &&& r.transitions@.len() == 2
            &&& forall|i: int| 0 <= i < 2 ==> #[trigger] r.transitions@[i]@ == spec_transition_label(
                transitions[i],
            )
            &&& r.error is None
        }),
{
    let none = InputModifiers::none();
    let mut events: Vec<ScreenshotInputEvent> = Vec::new();
    events.push(
        ScreenshotInputEvent::PointerDown { x: 10, y: 10, button: PointerButton::Primary, modifiers: none },
    );
    events.push(ScreenshotInputEvent::Key { command: KeyCommand::Cancel, modifiers: none });
    assert(events@ =~= cancel_smoke_events());
    let (state, transitions) = replay_events(&events);
    let status = match state.status() {
        SelectionStateStatus::Cancelled => NativeInputSmokeStatus::Cancelled,
        _ => NativeInputSmokeStatus::Incomplete,
    };
    NativeInputSmokeReport {
        status,
        transitions,
        completed_rect: state.completed_selection(),
        final_state: state.status(),
        decoded_events: events.len(),
        error: None,
    }
}

} // verus!
