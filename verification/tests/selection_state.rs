use screenshot_native::input::{InputContract, InputModifiers, KeyCommand, ScreenshotInputEvent};
use screenshot_native::output::SelectionRect;
use screenshot_native::selection_state::{SelectionState, SelectionStateStatus, SelectionTransition};

#[test]
fn drag_completes_normalized_selection() {
    let mut state = SelectionState::new();

    assert_eq!(
        state.handle_event(ScreenshotInputEvent::MouseDown { x: 30, y: 40 }),
        SelectionTransition::Armed {
            anchor_x: 30,
            anchor_y: 40,
        }
    );
    assert_eq!(
        state.handle_event(ScreenshotInputEvent::MouseMove { x: 10, y: 15 }),
        SelectionTransition::Updated {
            rect: SelectionRect::new(10, 15, 20, 25),
        }
    );
    assert_eq!(
        state.handle_event(ScreenshotInputEvent::MouseUp { x: 10, y: 15 }),
        SelectionTransition::Completed {
            rect: SelectionRect::new(10, 15, 20, 25),
        }
    );
    assert_eq!(
        state.completed_selection(),
        Some(SelectionRect::new(10, 15, 20, 25))
    );
}

#[test]
fn ignores_clicks_under_drag_threshold() {
    let mut state = SelectionState::new();

    state.handle_event(ScreenshotInputEvent::MouseDown { x: 10, y: 10 });
    assert_eq!(
        state.handle_event(ScreenshotInputEvent::MouseMove { x: 11, y: 11 }),
        SelectionTransition::Ignored
    );
    assert_eq!(
        state.handle_event(ScreenshotInputEvent::MouseUp { x: 11, y: 11 }),
        SelectionTransition::Ignored
    );
    assert_eq!(state.status(), SelectionStateStatus::Idle);
}

#[test]
fn confirm_completes_current_drag() {
    let mut state = SelectionState::new();

    state.handle_event(ScreenshotInputEvent::MouseDown { x: 5, y: 5 });
    state.handle_event(ScreenshotInputEvent::MouseMove { x: 20, y: 25 });

    assert_eq!(
        state.handle_event(ScreenshotInputEvent::Confirm),
        SelectionTransition::Completed {
            rect: SelectionRect::new(5, 5, 15, 20),
        }
    );
    assert_eq!(state.status(), SelectionStateStatus::Completed);
}

#[test]
fn escape_cancels_selection() {
    let mut state = SelectionState::new();

    state.handle_event(ScreenshotInputEvent::MouseDown { x: 5, y: 5 });
    assert_eq!(
        state.handle_event(ScreenshotInputEvent::Key {
            command: KeyCommand::Cancel,
            modifiers: InputModifiers::none(),
        }),
        SelectionTransition::Cancelled
    );
    assert_eq!(state.status(), SelectionStateStatus::Cancelled);
}

#[test]
fn repeat_hotkey_cleans_active_selection_and_allows_fresh_drag() {
    let mut state = SelectionState::new();

    state.handle_event(ScreenshotInputEvent::MouseDown { x: -120, y: 80 });
    state.handle_event(ScreenshotInputEvent::MouseMove { x: 320, y: 260 });

    assert_eq!(
        state.handle_event(ScreenshotInputEvent::RepeatHotkey),
        SelectionTransition::Cancelled
    );
    assert_eq!(state.status(), SelectionStateStatus::Cancelled);
    assert_eq!(state.selection(), None);

    assert_eq!(
        state.handle_event(ScreenshotInputEvent::MouseDown { x: 10, y: 10 }),
        SelectionTransition::Armed {
            anchor_x: 10,
            anchor_y: 10,
        }
    );
    assert_eq!(
        state.handle_event(ScreenshotInputEvent::MouseUp { x: 40, y: 35 }),
        SelectionTransition::Completed {
            rect: SelectionRect::new(10, 10, 30, 25),
        }
    );
}

#[test]
fn repeat_hotkey_contract_can_leave_selection_active() {
    let mut state = SelectionState::with_contract(InputContract {
        allow_repeat_hotkey_cancel: false,
        allow_keyboard_adjustment: true,
        minimum_drag_pixels: 2,
    });

    state.handle_event(ScreenshotInputEvent::MouseDown { x: 5, y: 5 });
    state.handle_event(ScreenshotInputEvent::MouseMove { x: 30, y: 25 });

    assert_eq!(
        state.handle_event(ScreenshotInputEvent::Key {
            command: KeyCommand::RepeatHotkey,
            modifiers: InputModifiers::none(),
        }),
        SelectionTransition::Ignored
    );
    assert_eq!(state.status(), SelectionStateStatus::Selecting);
    assert_eq!(state.selection(), Some(SelectionRect::new(5, 5, 25, 20)));
}

#[test]
fn completed_selection_ignores_later_motion() {
    let mut state = SelectionState::new();
    state.handle_event(ScreenshotInputEvent::MouseDown { x: 0, y: 0 });
    state.handle_event(ScreenshotInputEvent::MouseUp { x: 10, y: 10 });
    assert_eq!(state.status(), SelectionStateStatus::Completed);
    assert_eq!(
        state.handle_event(ScreenshotInputEvent::MouseMove { x: 50, y: 50 }),
        SelectionTransition::Ignored
    );
    assert_eq!(state.completed_selection(), Some(SelectionRect::new(0, 0, 10, 10)));
}

#[test]
fn lost_focus_cancels_from_any_state() {
    let mut state = SelectionState::new();
    assert_eq!(
        state.handle_event(ScreenshotInputEvent::LostFocus),
        SelectionTransition::Cancelled
    );
    assert_eq!(state.status(), SelectionStateStatus::Cancelled);
    state.reset();
    assert_eq!(state.status(), SelectionStateStatus::Idle);
}

#[test]
fn normalizing_a_drag_twice_changes_nothing() {
    let dragged = SelectionRect::new(50, 40, -30, -20);
    let once = dragged.normalized();
    assert_eq!(once, SelectionRect::new(20, 20, 30, 20));
    assert_eq!(once.normalized(), once);
}
