use screenshot_native::overlay::{
    win32_apply_overlay_ex_style, NativeOverlayOptions, WS_EX_APPWINDOW, WS_EX_TOOLWINDOW,
};

const TEST_WS_VISIBLE: u32 = 0x10000000;

#[test]
fn default_policy_hides_overlay_from_taskbar_and_alt_tab() {
    let policy = NativeOverlayOptions::default().to_win32_policy();

    assert_eq!(policy.create_style & TEST_WS_VISIBLE, 0);
    assert!(policy.hides_from_taskbar_and_alt_tab());
    assert!(policy.avoids_activation());
}

#[test]
fn applying_overlay_style_removes_appwindow() {
    let current = WS_EX_APPWINDOW | WS_EX_TOOLWINDOW;

    let applied = win32_apply_overlay_ex_style(current, NativeOverlayOptions::default());

    assert_eq!(applied & WS_EX_APPWINDOW, 0);
    assert_ne!(applied & WS_EX_TOOLWINDOW, 0);
}

