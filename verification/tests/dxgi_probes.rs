use screenshot_native::capture::MonitorCaptureBounds;
use screenshot_native::dxgi_frame_info_probe::{
    extract_hresult_hex, failed_acquire_attempt, finish_frame_info_path,
    frame_info_next_attempt, frame_info_path_start_failed, run_dxgi_frame_info_probe,
    session_unavailable_attempt, DxgiFrameInfoProbePath,
};
use screenshot_native::dxgi_pulse_before_acquire_probe as pulse_probe;

#[test]
fn frame_info_probe_rejects_empty_bounds() {
    let report = run_dxgi_frame_info_probe(MonitorCaptureBounds::new(0, 0, 0, 1));
    assert!(!report.attempted);
    assert!(!report.ok);
    assert_eq!(report.default_output.path.as_str(), "default-output");
    assert_eq!(report.selected_output.path.as_str(), "selected-output");
    assert!(report.default_output.attempts.is_empty());
    assert!(report.error.unwrap().contains("non-empty bounds"));
}

#[test]
fn extracts_hresult_hex_from_error_text() {
    assert_eq!(
        extract_hresult_hex("failed with code (0x887A0027)"),
        Some("0x887A0027".to_string())
    );
    assert_eq!(extract_hresult_hex("no code"), None);
}

#[test]
fn frame_info_hresult_token_must_be_long_enough() {
    assert_eq!(extract_hresult_hex("code 0x12"), None);
    assert_eq!(
        extract_hresult_hex("DXGI_ERROR_WAIT_TIMEOUT 0x887A0027 retry"),
        Some("0x887A0027".to_string())
    );
    assert_eq!(
        extract_hresult_hex("code 0x887A0027, retry"),
        Some("0x887A0027,".to_string())
    );
}

#[test]
fn pulse_before_acquire_rejects_empty_bounds() {
    let report = pulse_probe::run_dxgi_pulse_before_acquire_probe(
        MonitorCaptureBounds::new(0, 0, 0, 1),
        2,
        1,
        16,
    );

    assert!(!report.attempted);
    assert!(!report.ok);
    assert!(report.error.unwrap().contains("non-empty"));
}

#[test]
fn extracts_hresult_inside_parentheses() {
    assert_eq!(
        pulse_probe::extract_hresult_hex("超时值已过，资源还不可用。 (0x887A0027)"),
        Some("0x887A0027".to_string())
    );
}

#[test]
fn pulse_hresult_needs_a_hex_prefix() {
    assert_eq!(pulse_probe::extract_hresult_hex("no code here"), None);
    assert_eq!(pulse_probe::extract_hresult_hex("short 0xdead"), None);
    assert_eq!(
        pulse_probe::extract_hresult_hex("code 0x887A0027 then 0x80070005"),
        Some("0x887A0027".to_string())
    );
}

#[test]
fn frame_info_attempts_stay_within_budget() {
    assert_eq!(frame_info_next_attempt(0, 0), Some((1, 50)));
    assert_eq!(frame_info_next_attempt(480, 9), Some((10, 20)));
    assert_eq!(frame_info_next_attempt(500, 10), None);
    let mut elapsed = 0u32;
    let mut attempts = 0u32;
    while let Some((number, timeout)) = frame_info_next_attempt(elapsed, attempts) {
        assert_eq!(number, attempts + 1);
        attempts = number;
        elapsed += timeout;
        assert!(elapsed <= 500);
    }
    assert_eq!(attempts, 10);
}

#[test]
fn frame_info_path_reports_success_only_with_a_frame_and_a_stop() {
    let failed = failed_acquire_attempt(1, 50, 0, "DXGI_ERROR_WAIT_TIMEOUT (0x887A0027)".to_string());
    let report = finish_frame_info_path(
        DxgiFrameInfoProbePath::SelectedOutput,
        None,
        Some((1, 0)),
        None,
        vec![failed, session_unavailable_attempt(2, 50, 50)],
        true,
    );
    assert!(report.attempted);
    assert!(!report.ok);
    assert_eq!(report.adapter_index, Some(1));
    assert_eq!(
        report.error.as_deref(),
        Some("DXGI frame-info probe did not acquire a frame within 500 ms")
    );
    let start_failed = frame_info_path_start_failed(
        DxgiFrameInfoProbePath::DefaultOutput,
        None,
        None,
        None,
        "no output".to_string(),
    );
    assert!(start_failed.attempted && !start_failed.ok && !start_failed.stopped);
    assert_eq!(start_failed.error.as_deref(), Some("no output"));
}

fn shown_pulse(bounds: MonitorCaptureBounds) -> screenshot_native::win32_desktop_update_pulse::DesktopUpdatePulseReport {
    let request = pulse_probe::pulse_path_request(Some(bounds), bounds, 2, 1, 16);
    let mut pulse =
        screenshot_native::win32_desktop_update_pulse::DesktopUpdatePulseReport::blocked(request, "unused");
    pulse.ok = true;
    pulse.error = None;
    pulse
}

#[test]
fn pulse_request_prefers_the_duplicated_output() {
    let requested = MonitorCaptureBounds::new(10, 20, 300, 200);
    let output = MonitorCaptureBounds::new(0, 0, 1920, 1080);
    let on_output = pulse_probe::pulse_path_request(Some(output), requested, 4, 3, 16);
    assert_eq!(on_output.bounds, output);
    assert_eq!(on_output.pulse_size_px, 4);
    assert_eq!(on_output.pulse_alpha, 3);
    assert_eq!(on_output.dwell_ms, 16);
    let on_selection = pulse_probe::pulse_path_request(None, requested, 4, 3, 16);
    assert_eq!(on_selection.bounds, requested);
}

#[test]
fn pulse_attempts_spend_one_second_in_steps_of_a_tenth() {
    assert_eq!(pulse_probe::pulse_next_attempt(0, 0), Some((1, 100)));
    assert_eq!(pulse_probe::pulse_next_attempt(950, 9), Some((10, 50)));
    assert_eq!(pulse_probe::pulse_next_attempt(1000, 10), None);
    let mut elapsed = 0u32;
    let mut attempts = 0u32;
    while let Some((number, timeout)) = pulse_probe::pulse_next_attempt(elapsed, attempts) {
        assert_eq!(number, attempts + 1);
        assert_eq!(timeout, 100);
        attempts = number;
        elapsed += timeout;
    }
    assert_eq!(attempts, 10);
    assert_eq!(elapsed, 1000);
}

#[test]
fn pulse_path_start_failure_keeps_what_the_backend_knew() {
    let output = MonitorCaptureBounds::new(0, 0, 1920, 1080);
    let report = pulse_probe::pulse_path_start_failed(
        DxgiFrameInfoProbePath::SelectedOutput,
        Some(output),
        Some((1, 2)),
        None,
        "DuplicateOutput failed".to_string(),
    );
    assert!(report.attempted && !report.ok && !report.stopped);
    assert_eq!(report.output_bounds, Some(output));
    assert_eq!((report.adapter_index, report.output_index), (Some(1), Some(2)));
    assert!(report.pulse.is_none() && report.acquire.is_none() && report.attempts.is_empty());
    assert_eq!(report.error.as_deref(), Some("DuplicateOutput failed"));
}

#[test]
fn pulse_path_acquires_the_first_frame_after_the_pulse() {
    let output = MonitorCaptureBounds::new(0, 0, 1920, 1080);
    let timeout = failed_acquire_attempt(1, 100, 0, "DXGI_ERROR_WAIT_TIMEOUT (0x887A0027)".to_string());
    let mut acquired = session_unavailable_attempt(2, 100, 100);
    acquired.ok = true;
    acquired.error = None;
    let mut later = session_unavailable_attempt(3, 100, 200);
    later.ok = true;
    later.error = Some("later".to_string());
    let report = pulse_probe::finish_pulse_path(
        DxgiFrameInfoProbePath::DefaultOutput,
        Some(output),
        Some((0, 0)),
        None,
        shown_pulse(output),
        vec![timeout, acquired.clone(), later],
        true,
    );
    assert!(report.ok && report.attempted && report.stopped);
    assert_eq!(report.acquire, Some(acquired));
    assert_eq!(report.attempts.len(), 3);
    assert_eq!(report.error, None);
    assert!(report.pulse.unwrap().ok);
}

#[test]
fn pulse_path_errors_name_what_went_wrong() {
    let output = MonitorCaptureBounds::new(0, 0, 800, 600);
    let timeout = || failed_acquire_attempt(1, 100, 0, "DXGI_ERROR_WAIT_TIMEOUT (0x887A0027)".to_string());

    let request = pulse_probe::pulse_path_request(None, output, 2, 1, 16);
    let hidden = screenshot_native::win32_desktop_update_pulse::DesktopUpdatePulseReport::blocked(
        request,
        "pulse window was not shown",
    );
    let report = pulse_probe::finish_pulse_path(
        DxgiFrameInfoProbePath::DefaultOutput, None, None, None, hidden, Vec::new(), true,
    );
    assert!(!report.ok);
    assert_eq!(report.error.as_deref(), Some("pulse window was not shown"));

    let report = pulse_probe::finish_pulse_path(
        DxgiFrameInfoProbePath::DefaultOutput, None, None, None, shown_pulse(output), vec![timeout()], false,
    );
    assert_eq!(
        report.error.as_deref(),
        Some("DXGI pulse-before-acquire probe failed to stop duplication session")
    );

    let lost = failed_acquire_attempt(2, 100, 100, "DXGI_ERROR_ACCESS_LOST".to_string());
    assert!(lost.access_lost);
    let report = pulse_probe::finish_pulse_path(
        DxgiFrameInfoProbePath::DefaultOutput, None, None, None, shown_pulse(output), vec![timeout(), lost], true,
    );
    assert_eq!(report.error.as_deref(), Some("DXGI pulse-before-acquire probe lost access after pulse"));
    assert_eq!(report.acquire, None);

    let report = pulse_probe::finish_pulse_path(
        DxgiFrameInfoProbePath::DefaultOutput, None, None, None, shown_pulse(output), vec![timeout(), timeout()], true,
    );
    assert_eq!(
        report.error.as_deref(),
        Some("DXGI pulse-before-acquire probe timed out after pulse across 2 attempts and 1000 ms")
    );
}

#[test]
fn pulse_probe_succeeds_when_either_path_acquires() {
    let bounds = MonitorCaptureBounds::new(0, 0, 800, 600);
    let failed = || pulse_probe::pulse_path_start_failed(
        DxgiFrameInfoProbePath::DefaultOutput, None, None, None, "no".to_string(),
    );
    let mut acquired = session_unavailable_attempt(1, 100, 0);
    acquired.ok = true;
    let good = pulse_probe::finish_pulse_path(
        DxgiFrameInfoProbePath::SelectedOutput, Some(bounds), None, None, shown_pulse(bounds), vec![acquired], true,
    );
    let report = pulse_probe::combine_pulse_path_reports(bounds, 2, 1, 16, failed(), good.clone());
    assert!(report.attempted && report.ok);
    assert_eq!(report.error, None);
    assert_eq!(report.selected_output, good);
    let report = pulse_probe::combine_pulse_path_reports(bounds, 2, 1, 16, failed(), failed());
    assert!(report.attempted && !report.ok);
    assert_eq!(report.error.as_deref(), Some("DXGI pulse-before-acquire probe did not acquire a frame"));
    assert_eq!((report.pulse_size_px, report.pulse_alpha, report.dwell_ms), (2, 1, 16));
}
