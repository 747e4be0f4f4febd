use screenshot_native::capture::RgbaFrame;
use screenshot_native::output::{OutputAction, SelectionRect};
use screenshot_native::selected_image_bridge::{
    build_selected_image_bridge_contract, SelectedImageBridgeContract,
};
use screenshot_native::selected_output_effects::{
    perform_selected_output_effect_with_sink, selected_output_effect_outcome,
    selected_output_effect_payload,
    SelectedOutputEffectError,
    SelectedOutputEffectRequest, SelectedOutputEffectSink,
};

#[derive(Default)]
struct FakeClipboardSink {
    calls: usize,
    last_png: Vec<u8>,
    fail: Option<String>,
}

impl SelectedOutputEffectSink for FakeClipboardSink {
    fn copy_png_to_clipboard(&mut self, png_bytes: &[u8]) -> Result<(), SelectedOutputEffectError> {
        self.calls += 1;
        self.last_png = png_bytes.to_vec();
        if let Some(message) = &self.fail {
            return Err(SelectedOutputEffectError::ClipboardWriteFailed(
                message.clone(),
            ));
        }
        Ok(())
    }
}

fn copy_contract() -> SelectedImageBridgeContract {
    let frame =
        RgbaFrame::new(2, 1, vec![255, 0, 0, 255, 0, 255, 0, 255]).expect("valid test frame");
    build_selected_image_bridge_contract(
        OutputAction::Copy,
        &frame,
        SelectionRect::new(0, 0, 2, 1),
    )
    .expect("copy bridge contract")
}

#[test]
fn copy_effect_requires_explicit_opt_in() {
    let contract = copy_contract();
    let mut sink = FakeClipboardSink::default();
    let error = perform_selected_output_effect_with_sink(
        &contract,
        SelectedOutputEffectRequest {
            explicit_opt_in: false,
        },
        &mut sink,
    )
    .expect_err("opt-in required");

    assert_eq!(error, SelectedOutputEffectError::ExplicitOptInRequired);
    assert_eq!(sink.calls, 0);
}

#[test]
fn copy_effect_rejects_non_copy_actions_without_side_effects() {
    for action in [
        OutputAction::SaveAs,
        OutputAction::Ocr,
        OutputAction::Translate,
    ] {
        let mut contract = copy_contract();
        contract.action = action;
        contract.target = action.bridge_target().expect("bridge target");
        let mut sink = FakeClipboardSink::default();
        let error = perform_selected_output_effect_with_sink(
            &contract,
            SelectedOutputEffectRequest {
                explicit_opt_in: true,
            },
            &mut sink,
        )
        .expect_err("unsupported action");

        assert_eq!(error, SelectedOutputEffectError::UnsupportedAction(action));
        assert_eq!(sink.calls, 0);
    }
}

#[test]
fn copy_effect_writes_selected_png_once() {
    let contract = copy_contract();
    let expected_png = contract.image.png_bytes.clone();
    let mut sink = FakeClipboardSink::default();
    let receipt = perform_selected_output_effect_with_sink(
        &contract,
        SelectedOutputEffectRequest {
            explicit_opt_in: true,
        },
        &mut sink,
    )
    .expect("copy effect receipt");

    assert_eq!(sink.calls, 1);
    assert_eq!(sink.last_png, expected_png);
    assert!(receipt.is_copy_only());
    assert_eq!(receipt.png_byte_len, contract.image.byte_len());
    assert!(receipt.selected_only_png);
}

#[test]
fn copy_effect_receipt_never_marks_save_ocr_translate() {
    let contract = copy_contract();
    let mut sink = FakeClipboardSink::default();
    let receipt = perform_selected_output_effect_with_sink(
        &contract,
        SelectedOutputEffectRequest {
            explicit_opt_in: true,
        },
        &mut sink,
    )
    .expect("copy effect receipt");

    assert!(!receipt.save_invoked);
    assert!(!receipt.ocr_invoked);
    assert!(!receipt.translation_invoked);
}

#[test]
fn copy_effect_rejects_invalid_selected_png() {
    let mut contract = copy_contract();
    contract.image.png_bytes.clear();
    let mut sink = FakeClipboardSink::default();
    let error = perform_selected_output_effect_with_sink(
        &contract,
        SelectedOutputEffectRequest {
            explicit_opt_in: true,
        },
        &mut sink,
    )
    .expect_err("invalid png rejected");

    assert_eq!(error, SelectedOutputEffectError::InvalidSelectedPng);
    assert_eq!(sink.calls, 0);
}

#[test]
fn copy_effect_propagates_clipboard_failure() {
    let contract = copy_contract();
    let mut sink = FakeClipboardSink {
        fail: Some("clipboard unavailable".to_string()),
        ..Default::default()
    };
    let error = perform_selected_output_effect_with_sink(
        &contract,
        SelectedOutputEffectRequest {
            explicit_opt_in: true,
        },
        &mut sink,
    )
    .expect_err("sink failure propagates");

    assert_eq!(sink.calls, 1);
    assert_eq!(
        error,
        SelectedOutputEffectError::ClipboardWriteFailed("clipboard unavailable".to_string())
    );
}

#[test]
fn effect_error_texts_are_stable() {
    assert_eq!(
        SelectedOutputEffectError::ExplicitOptInRequired.to_string(),
        "selected output effects require explicit opt-in"
    );
    assert_eq!(
        SelectedOutputEffectError::ClipboardWriteFailed("busy".to_string()).to_string(),
        "copy selected output to clipboard failed: busy"
    );
    assert_eq!(
        SelectedOutputEffectError::UnsupportedAction(OutputAction::SaveAs).to_string(),
        "selected output effect only supports copy action: SaveAs"
    );
}

#[test]
fn effect_outcome_follows_the_sink_answer() {
    let contract = copy_contract();
    let receipt = selected_output_effect_outcome(&contract, Ok(())).expect("copied");
    assert!(receipt.is_copy_only());
    assert_eq!(receipt.png_byte_len, contract.image.png_bytes.len());
    let error = SelectedOutputEffectError::ClipboardWriteFailed("busy".to_string());
    assert_eq!(
        selected_output_effect_outcome(&contract, Err(error.clone())),
        Err(error)
    );
}

#[test]
fn effect_payload_is_the_selected_png_or_the_refusal() {
    let contract = copy_contract();
    let allowed = SelectedOutputEffectRequest { explicit_opt_in: true };
    let refused = SelectedOutputEffectRequest { explicit_opt_in: false };
    assert_eq!(
        selected_output_effect_payload(&contract, allowed),
        Ok(contract.image.png_bytes.as_slice())
    );
    assert_eq!(
        selected_output_effect_payload(&contract, refused),
        Err(SelectedOutputEffectError::ExplicitOptInRequired)
    );
    let mut ocr = copy_contract();
    ocr.action = OutputAction::Ocr;
    ocr.target = OutputAction::Ocr.bridge_target().expect("bridge target");
    assert_eq!(
        selected_output_effect_payload(&ocr, allowed),
        Err(SelectedOutputEffectError::UnsupportedAction(OutputAction::Ocr))
    );
    let mut empty = copy_contract();
    empty.image.png_bytes.clear();
    assert_eq!(
        selected_output_effect_payload(&empty, allowed),
        Err(SelectedOutputEffectError::InvalidSelectedPng)
    );
}
