use screenshot_native::capture::MonitorCaptureBounds;
use screenshot_native::win32_cursor::nudge_cursor_temporarily;
use screenshot_native::win32_desktop_update_pulse::{
    run_desktop_update_pulse, DesktopUpdatePulseRequest,
};

#[test]
fn cursor_nudge_rejects_zero_movement() {
    let report = nudge_cursor_temporarily(0, 0);
    assert!(!report.attempted);
    assert!(!report.ok);
    assert!(report.error.unwrap().contains("non-zero movement"));
}

#[test]
fn cursor_nudge_rejects_large_movement() {
    let report = nudge_cursor_temporarily(3, 0);
    assert!(!report.attempted);
    assert!(!report.ok);
    assert!(report.error.unwrap().contains("two pixels"));
}

#[test]
fn pulse_rejects_empty_bounds() {
    let report = run_desktop_update_pulse(DesktopUpdatePulseRequest::new(
        MonitorCaptureBounds::new(0, 0, 0, 1),
        1,
        1,
        0,
    ));
    assert!(!report.attempted);
    assert!(!report.ok);
    assert!(report.error.unwrap().contains("non-empty bounds"));
}

#[test]
fn pulse_rejects_large_size() {
    let report = run_desktop_update_pulse(DesktopUpdatePulseRequest::new(
        MonitorCaptureBounds::new(0, 0, 10, 10),
        5,
        1,
        0,
    ));
    assert!(!report.attempted);
    assert!(!report.ok);
    assert!(report.error.unwrap().contains("1..=4"));
}

#[test]
fn pulse_rejects_large_dwell() {
    let report = run_desktop_update_pulse(DesktopUpdatePulseRequest::new(
        MonitorCaptureBounds::new(0, 0, 10, 10),
        1,
        1,
        251,
    ));
    assert!(!report.attempted);
    assert!(!report.ok);
    assert!(report.error.unwrap().contains("<= 250"));
}

