use screenshot_native::native_input_smoke::{
    run_synthetic_native_cancel_smoke, run_synthetic_native_drag_smoke, NativeInputSmokeStatus,
};
use screenshot_native::output::SelectionRect;

#[test]
fn synthetic_drag_smoke_completes_selection() {
    let report = run_synthetic_native_drag_smoke();
    assert_eq!(report.status, NativeInputSmokeStatus::Completed);
    assert_eq!(report.decoded_events, 3);
    assert_eq!(
        report.completed_rect,
        Some(SelectionRect::new(10, 10, 70, 60))
    );
    assert!(report.transitions.contains(&"completed"));
}

#[test]
fn synthetic_cancel_smoke_cancels_selection() {
    let report = run_synthetic_native_cancel_smoke();
    assert_eq!(report.status, NativeInputSmokeStatus::Cancelled);
    assert_eq!(report.decoded_events, 2);
    assert!(report.completed_rect.is_none());
    assert!(report.transitions.contains(&"cancelled"));
}

