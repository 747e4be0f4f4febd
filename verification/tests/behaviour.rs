use base64::Engine;
use screenshot_native::capture::{MonitorCaptureBounds, RgbaFrame};
use screenshot_native::d3d11_frame::{D3d11FrameContractError, D3d11TextureFrameFormat};
use screenshot_native::dxgi_readback::mapped_region_to_rgba;
use screenshot_native::focus::{
    foreground_restore_decision, AltTabRestoreSemantics, ForegroundObservation,
    ForegroundRestoreDecision,
};
use screenshot_native::gpu_device::{
    accept_created_d3d11_device, d3d11_device_flags, dxgi_gpu_preference_code,
    first_hardware_adapter, D3d11AdapterInfo, D3d11AdapterPreference, D3d11DeviceCreateOptions,
    D3d11DeviceError, D3d11FeatureLevel,
};
use screenshot_native::output::{OutputAction, SelectionRect};
use screenshot_native::selected_image_bridge::{
    build_selected_image_bridge_contract, PNG_DATA_URL_PREFIX,
};
use screenshot_native::selected_output_clipboard::decode_png_for_clipboard;
use screenshot_native::win32_desktop_update_pulse::{
    pulse_bounds, pulse_ex_style, style_hides_from_alt_tab, DesktopUpdatePulseRequest,
};

#[test]
fn bgra_rows_are_swapped_to_rgba_and_padding_dropped() {
    let source = [1u8, 2, 3, 4, 5, 6, 7, 8, 99, 99, 11, 12, 13, 14, 15, 16, 17, 18, 99, 99];
    let rgba = mapped_region_to_rgba(D3d11TextureFrameFormat::Bgra8Unorm, 2, 2, 10, &source)
        .expect("mapped rows");
    assert_eq!(
        rgba,
        vec![3, 2, 1, 4, 7, 6, 5, 8, 13, 12, 11, 14, 17, 16, 15, 18]
    );
    let same = mapped_region_to_rgba(D3d11TextureFrameFormat::Rgba8Unorm, 2, 2, 10, &source)
        .expect("mapped rows");
    assert_eq!(same, vec![1, 2, 3, 4, 5, 6, 7, 8, 11, 12, 13, 14, 15, 16, 17, 18]);
}

#[test]
fn mapped_rows_reject_short_pitch() {
    let source = [0u8; 16];
    assert_eq!(
        mapped_region_to_rgba(D3d11TextureFrameFormat::Rgba8Unorm, 2, 2, 7, &source),
        Err(D3d11FrameContractError::RowPitchTooSmall { row_pitch: 7, minimum: 8 })
    );
}

#[test]
fn feature_levels_round_trip_through_raw_codes() {
    for level in [
        D3d11FeatureLevel::V10_0,
        D3d11FeatureLevel::V10_1,
        D3d11FeatureLevel::V11_0,
        D3d11FeatureLevel::V11_1,
        D3d11FeatureLevel::V12_0,
        D3d11FeatureLevel::V12_1,
    ] {
        let raw = level.as_raw().expect("known level has a code");
        assert_eq!(D3d11FeatureLevel::from_raw(raw), level);
    }
    assert_eq!(D3d11FeatureLevel::V11_0.as_raw(), Some(0xb000));
    assert_eq!(D3d11FeatureLevel::Unknown.as_raw(), None);
    assert_eq!(D3d11FeatureLevel::from_raw(0x1234), D3d11FeatureLevel::Unknown);
}

#[test]
fn user_chosen_foreground_is_kept() {
    let observed = ForegroundObservation { snapshot_window_exists: true, current_foreground: 30 };
    assert_eq!(
        foreground_restore_decision(10, 20, AltTabRestoreSemantics::PreserveUserForeground, observed),
        ForegroundRestoreDecision::KeepUserForeground
    );
    assert_eq!(
        foreground_restore_decision(10, 20, AltTabRestoreSemantics::ForceSnapshotForeground, observed),
        ForegroundRestoreDecision::SetSnapshotForeground
    );
    let overlay_in_front = ForegroundObservation { snapshot_window_exists: true, current_foreground: 20 };
    assert_eq!(
        foreground_restore_decision(
            10,
            20,
            AltTabRestoreSemantics::PreserveUserForeground,
            overlay_in_front
        ),
        ForegroundRestoreDecision::SetSnapshotForeground
    );
    let gone = ForegroundObservation { snapshot_window_exists: false, current_foreground: 30 };
    assert_eq!(
        foreground_restore_decision(10, 20, AltTabRestoreSemantics::PreserveUserForeground, gone),
        ForegroundRestoreDecision::NoTarget
    );
}

#[test]
fn pulse_window_is_small_corner_and_hidden_from_alt_tab() {
    let request = DesktopUpdatePulseRequest::new(MonitorCaptureBounds::new(-100, 50, 10, 10), 4, 1, 0);
    let bounds = pulse_bounds(request);
    assert_eq!(bounds, MonitorCaptureBounds::new(-100, 50, 4, 4));
    assert!(style_hides_from_alt_tab(pulse_ex_style()));
}

#[test]
fn copy_bridge_carries_standard_base64_png_data_url() {
    let frame =
        RgbaFrame::new(2, 1, vec![255, 0, 0, 255, 0, 255, 0, 255]).expect("valid test frame");
    let contract = build_selected_image_bridge_contract(
        OutputAction::Copy,
        &frame,
        SelectionRect::new(0, 0, 2, 1),
    )
    .expect("copy bridge contract");
    let expected = base64::engine::general_purpose::STANDARD.encode(&contract.image.png_bytes);
    assert_eq!(contract.png_base64, expected);
    assert_eq!(contract.data_url, format!("{PNG_DATA_URL_PREFIX}{expected}"));
    assert_ne!(contract.png_base64.as_bytes(), contract.image.png_bytes.as_slice());
}

#[test]
fn selected_png_decodes_back_to_cropped_pixels() {
    let frame = RgbaFrame::new(
        2,
        2,
        vec![1, 2, 3, 255, 4, 5, 6, 255, 7, 8, 9, 255, 10, 11, 12, 255],
    )
    .expect("valid test frame");
    let contract = build_selected_image_bridge_contract(
        OutputAction::Copy,
        &frame,
        SelectionRect::new(1, 0, 1, 2),
    )
    .expect("copy bridge contract");
    let image = decode_png_for_clipboard(&contract.image.png_bytes).expect("decodable png");
    assert_eq!(image.width, 1);
    assert_eq!(image.height, 2);
    assert_eq!(image.bytes, vec![4, 5, 6, 255, 10, 11, 12, 255]);
}

#[test]
fn created_device_is_checked_against_capture_minimum() {
    let options = D3d11DeviceCreateOptions::default();
    assert_eq!(
        accept_created_d3d11_device(0xa100, options, None, true, true),
        Err(D3d11DeviceError::UnsupportedFeatureLevel(D3d11FeatureLevel::V10_1))
    );
    assert_eq!(
        accept_created_d3d11_device(0xb000, options, None, false, true),
        Err(D3d11DeviceError::DeviceUnavailable("default hardware adapter".to_string()))
    );
    assert_eq!(
        accept_created_d3d11_device(0xb000, options, None, true, false),
        Err(D3d11DeviceError::ImmediateContextUnavailable)
    );
    let adapter = D3d11AdapterInfo::unknown();
    let diagnostics = accept_created_d3d11_device(0xc100, options, Some(&adapter), true, true)
        .expect("device accepted");
    assert_eq!(diagnostics.feature_level, D3d11FeatureLevel::V12_1);
    assert!(!diagnostics.used_default_adapter);
    assert_eq!(diagnostics.adapter_label, adapter.diagnostic_label());
}

#[test]
fn adapter_choice_skips_software_adapters() {
    assert_eq!(first_hardware_adapter(&vec![2, 2, 0, 0]), Some(2));
    assert_eq!(first_hardware_adapter(&vec![2, 3]), None);
    let mut many = vec![2u32; 32];
    many.push(0);
    assert_eq!(first_hardware_adapter(&many), None);
    assert_eq!(d3d11_device_flags(false), 0x20);
    assert_eq!(d3d11_device_flags(true), 0x22);
    assert_eq!(dxgi_gpu_preference_code(D3d11AdapterPreference::HighPerformance), 2);
    assert_eq!(dxgi_gpu_preference_code(D3d11AdapterPreference::Default), 0);
}
