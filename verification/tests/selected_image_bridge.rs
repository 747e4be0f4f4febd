use screenshot_native::capture::RgbaFrame;
use screenshot_native::output::{OutputAction, OutputBridgeTarget, SelectionRect};
use screenshot_native::selected_image_bridge::{
    build_output_bridge_contract, build_selected_image_bridge_contract,
    build_selected_png_contract, build_selected_png_contract_from_source,
    diagnose_selected_output_bridge_contract, dry_run_selected_output_bridge_contracts,
    dry_run_selected_output_bridges_from_source, SelectedImageBridgeError, PNG_DATA_URL_PREFIX,
};

#[test]
fn builds_base64_png_bridge_for_clamped_selection() {
    let frame = RgbaFrame::new(
        2,
        2,
        vec![
            255, 0, 0, 255, 0, 255, 0, 255, 0, 0, 255, 255, 255, 255, 255, 255,
        ],
    )
    .expect("valid test frame");

    let contract = build_selected_image_bridge_contract(
        OutputAction::Copy,
        &frame,
        SelectionRect::new(1, 1, 3, 3),
    )
    .expect("bridge contract");

    assert_eq!(contract.target, OutputBridgeTarget::Clipboard);
    assert_eq!(contract.image.crop.width, 1);
    assert_eq!(contract.image.crop.height, 1);
    assert!(contract.image.was_clamped);
    assert!(contract.data_url.starts_with(PNG_DATA_URL_PREFIX));
    assert!(!contract.png_base64.is_empty());
    assert!(!contract.image.png_bytes.is_empty());
    assert_eq!(contract.image.readback_contract().unwrap().rgba_byte_len, 4);
    assert!(contract.diagnostics().is_valid());
}

#[test]
fn selected_png_builder_accepts_readback_source_trait() {
    let frame =
        RgbaFrame::new(2, 1, vec![255, 0, 0, 255, 0, 255, 0, 255]).expect("valid test frame");

    let image = build_selected_png_contract_from_source(&frame, SelectionRect::new(1, 0, 2, 1))
        .expect("selected image from source");

    assert_eq!(image.crop.width, 1);
    assert_eq!(image.crop.height, 1);
    assert_eq!(image.source_width, 2);
    assert_eq!(image.readback_contract().unwrap().rgba_byte_len, 4);
    assert!(image.is_selected_only_png());
}

#[test]
fn dry_run_validates_all_image_bridge_actions_from_png_evidence() {
    let frame =
        RgbaFrame::new(2, 1, vec![255, 0, 0, 255, 0, 255, 0, 255]).expect("valid test frame");
    let image = build_selected_png_contract(&frame, SelectionRect::new(0, 0, 2, 1))
        .expect("selected png evidence");

    let report = dry_run_selected_output_bridge_contracts(&image).expect("dry-run report");

    assert!(report.is_valid());
    assert_eq!(report.image.png_byte_len, image.byte_len());
    assert_eq!(report.diagnostics.len(), 4);
    assert_eq!(report.diagnostics[0].action, OutputAction::Copy);
    assert_eq!(report.diagnostics[0].target, OutputBridgeTarget::Clipboard);
    assert_eq!(report.diagnostics[1].action, OutputAction::SaveAs);
    assert_eq!(report.diagnostics[1].target, OutputBridgeTarget::File);
    assert_eq!(report.diagnostics[2].action, OutputAction::Ocr);
    assert_eq!(report.diagnostics[2].target, OutputBridgeTarget::Ocr);
    assert_eq!(report.diagnostics[3].action, OutputAction::Translate);
    assert_eq!(
        report.diagnostics[3].target,
        OutputBridgeTarget::Translation
    );
}

#[test]
fn dry_run_from_readback_source_builds_selected_png_without_output_side_effects() {
    let frame = RgbaFrame::new(
        2,
        2,
        vec![
            255, 0, 0, 255, 0, 255, 0, 255, 0, 0, 255, 255, 255, 255, 255, 255,
        ],
    )
    .expect("valid test frame");

    let report =
        dry_run_selected_output_bridges_from_source(&frame, SelectionRect::new(1, 1, 4, 4))
            .expect("dry-run from source");

    assert!(report.is_valid());
    assert_eq!(report.image.crop.width, 1);
    assert_eq!(report.image.crop.height, 1);
    assert!(report.image.was_clamped);
    assert!(report.diagnostics.iter().all(|diagnostic| diagnostic
        .readback
        .is_some_and(|readback| readback.selected_only)));
}

#[test]
fn diagnostic_rejects_record_action_without_building_output_contract() {
    let frame = RgbaFrame::new(1, 1, vec![0, 0, 0, 0]).expect("valid test frame");
    let image = build_selected_png_contract(&frame, SelectionRect::new(0, 0, 1, 1))
        .expect("selected png evidence");
    let error = diagnose_selected_output_bridge_contract(OutputAction::Record, &image)
        .expect_err("record is not an output bridge action");

    assert_eq!(
        error,
        SelectedImageBridgeError::UnsupportedAction(OutputAction::Record)
    );
}

#[test]
fn rejects_record_action_without_side_effects() {
    let frame = RgbaFrame::new(1, 1, vec![0, 0, 0, 0]).expect("valid test frame");
    let error = build_selected_image_bridge_contract(
        OutputAction::Record,
        &frame,
        SelectionRect::new(0, 0, 1, 1),
    )
    .expect_err("record is not an image bridge action");

    assert_eq!(
        error,
        SelectedImageBridgeError::UnsupportedAction(OutputAction::Record)
    );
}

#[test]
fn output_bridge_rejects_record_before_png_work() {
    let frame = RgbaFrame::new(1, 1, vec![0, 0, 0, 0]).expect("valid test frame");
    let error = build_output_bridge_contract(
        OutputAction::Record,
        &frame,
        SelectionRect::new(0, 0, 1, 1),
    )
    .expect_err("record is not an output bridge action");

    assert_eq!(
        error,
        SelectedImageBridgeError::UnsupportedAction(OutputAction::Record)
    );
}


fn two_by_two() -> RgbaFrame {
    RgbaFrame::new(
        2,
        2,
        vec![
            255, 0, 0, 255, 0, 255, 0, 255, 0, 0, 255, 255, 255, 255, 255, 255,
        ],
    )
    .expect("valid test frame")
}

#[test]
fn output_bridge_contract_is_built_for_every_image_action() {
    let frame = two_by_two();
    let selected = build_selected_png_contract(&frame, SelectionRect::new(0, 0, 2, 1))
        .expect("selected png");
    for (action, target) in [
        (OutputAction::Copy, OutputBridgeTarget::Clipboard),
        (OutputAction::SaveAs, OutputBridgeTarget::File),
        (OutputAction::Ocr, OutputBridgeTarget::Ocr),
        (OutputAction::Translate, OutputBridgeTarget::Translation),
    ] {
        let contract = build_output_bridge_contract(action, &frame, SelectionRect::new(0, 0, 2, 1))
            .expect("output bridge contract");
        assert_eq!(contract.action, action);
        assert_eq!(contract.target, target);
        assert_eq!(contract.image.png_bytes, selected.png_bytes);
    }
}

#[test]
fn bridge_builders_report_selection_errors() {
    let frame = two_by_two();
    assert_eq!(
        build_selected_image_bridge_contract(OutputAction::Copy, &frame, SelectionRect::new(5, 5, 8, 8)),
        Err(SelectedImageBridgeError::SelectionOutsideFrame)
    );
    assert_eq!(
        build_selected_image_bridge_contract(OutputAction::Ocr, &frame, SelectionRect::new(1, 1, 0, 0)),
        Err(SelectedImageBridgeError::EmptySelection)
    );
    assert_eq!(
        build_output_bridge_contract(OutputAction::SaveAs, &frame, SelectionRect::new(5, 5, 8, 8)).err(),
        Some(SelectedImageBridgeError::SelectionOutsideFrame)
    );
    assert_eq!(
        dry_run_selected_output_bridges_from_source(&frame, SelectionRect::new(1, 1, 0, 0)).err(),
        Some(SelectedImageBridgeError::EmptySelection)
    );
}

#[test]
fn bridge_builders_refuse_a_frame_whose_bytes_do_not_match() {
    let frame = RgbaFrame { bytes: vec![0, 0, 0], width: 1, height: 1 };
    assert!(matches!(
        build_selected_image_bridge_contract(OutputAction::Copy, &frame, SelectionRect::new(0, 0, 1, 1)),
        Err(SelectedImageBridgeError::InvalidFrame(_))
    ));
    assert!(matches!(
        build_output_bridge_contract(OutputAction::Copy, &frame, SelectionRect::new(0, 0, 1, 1)),
        Err(SelectedImageBridgeError::InvalidFrame(_))
    ));
}

#[test]
fn dry_run_from_source_reports_the_built_png() {
    let frame = two_by_two();
    let image = build_selected_png_contract(&frame, SelectionRect::new(0, 1, 2, 2)).expect("png");
    let report = dry_run_selected_output_bridges_from_source(&frame, SelectionRect::new(0, 1, 2, 2))
        .expect("dry run");
    assert_eq!(report.image.png_byte_len, image.png_bytes.len());
    assert!(report.image.selected_only);
    assert_eq!(report.diagnostics.len(), 4);
    assert!(report.diagnostics.iter().all(|d| d.png_byte_len == image.png_bytes.len()));
}

#[test]
fn bridge_contract_base64_is_the_standard_encoding_of_the_png() {
    let frame = two_by_two();
    let contract = build_selected_image_bridge_contract(OutputAction::Translate, &frame, SelectionRect::new(0, 0, 1, 1))
        .expect("bridge contract");
    assert_eq!(contract.target, OutputBridgeTarget::Translation);
    assert_eq!(contract.png_base64.len(), 4 * contract.image.png_bytes.len().div_ceil(3));
    assert_eq!(contract.data_url, format!("{PNG_DATA_URL_PREFIX}{}", contract.png_base64));
    assert_eq!(&contract.image.png_bytes[..8], &[137, 80, 78, 71, 13, 10, 26, 10]);
}

#[test]
fn invalid_frame_error_carries_the_validation_text() {
    let frame = RgbaFrame { bytes: vec![0, 0, 0], width: 1, height: 1 };
    let text = frame.validate().unwrap_err().to_string();
    assert_eq!(text, "invalid rgba frame length: expected 4, got 3 for 1x1");
    assert_eq!(
        build_selected_png_contract(&frame, SelectionRect::new(0, 0, 1, 1)),
        Err(SelectedImageBridgeError::InvalidFrame(text.clone()))
    );
    assert_eq!(
        build_selected_image_bridge_contract(OutputAction::Copy, &frame, SelectionRect::new(0, 0, 1, 1)),
        Err(SelectedImageBridgeError::InvalidFrame(text.clone()))
    );
    assert_eq!(
        build_output_bridge_contract(OutputAction::SaveAs, &frame, SelectionRect::new(0, 0, 1, 1)).err(),
        Some(SelectedImageBridgeError::InvalidFrame(text))
    );
}
