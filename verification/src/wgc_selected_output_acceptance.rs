//! Accepting a WGC selected PNG for the clipboard, through a caller's sink.
use vstd::prelude::*;

use crate::output::{OutputAction, OutputBridgeTarget, OutputImageFormat, SelectedImageContract};
use crate::selected_image_bridge::{base64_encoded_len, clipboard_copy_contract_for_png};
use crate::selected_output_effects::{
    perform_selected_output_effect_with_sink, spec_effect_outcome, SelectedOutputEffectError, SelectedOutputEffectReceipt,
    SelectedOutputEffectRequest, SelectedOutputEffectSink,
};
use crate::text::str_eq;

verus! {

/// The refusal of a clipboard copy of `image`, if any: the opt-in, then the PNG.
pub open spec fn spec_copy_refusal(image: SelectedImageContract, explicit_opt_in: bool) -> Option<
    SelectedOutputEffectError,
> {
    if !explicit_opt_in {
        Some(SelectedOutputEffectError::ExplicitOptInRequired)
    } else if !image.spec_is_selected_only_png() {
        Some(SelectedOutputEffectError::InvalidSelectedPng)
    } else {
        None
    }
}

/// The receipt of a clipboard copy of `image` that the sink accepted.
pub open spec fn spec_png_copy_receipt(image: SelectedImageContract) -> SelectedOutputEffectReceipt {
    SelectedOutputEffectReceipt {
        action: OutputAction::Copy,
        target: OutputBridgeTarget::Clipboard,
        format: OutputImageFormat::Png,
        selected_only_png: true,
        png_byte_len: image.png_bytes@.len() as usize,
        copied_to_clipboard: true,
        save_invoked: false,
        ocr_invoked: false,
        translation_invoked: false,
    }
}

/// The effect of a clipboard copy of `image` that was not refused, given the sink's
/// answer: the copy receipt when the sink wrote the PNG, the sink's error otherwise.
pub open spec fn spec_png_copy_outcome(
    image: SelectedImageContract,
    copy_result: Result<(), SelectedOutputEffectError>,
) -> Result<SelectedOutputEffectReceipt, SelectedOutputEffectError> {
    match copy_result {
        Ok(_) => Ok(spec_png_copy_receipt(image)),
        Err(e) => Err(e),
    }
}

/// What a clipboard acceptance run established.
#[derive(Debug, Clone, PartialEq, Eq)]
pub struct WgcSelectedOutputClipboardAcceptanceReceipt {
    pub source: &'static str,
    pub diagnostic_only: bool,
    pub readiness_changed: bool,
    pub alt_a_changed: bool,
    pub persistent_handle_exposed: bool,
    pub wgc_selected_png_evidence_present: bool,
    pub selected_output_effect_accepted: bool,
    pub sink: &'static str,
    pub selected_only_png: bool,
    pub png_byte_len: usize,
    pub copied_png_byte_len: usize,
    pub effect: SelectedOutputEffectReceipt,
}

impl WgcSelectedOutputClipboardAcceptanceReceipt {
    pub open spec fn spec_proves_clipboard_copy(&self) -> bool {
        &&& self.diagnostic_only
        &&& !self.readiness_changed
        &&& !self.alt_a_changed
        &&& !self.persistent_handle_exposed
        &&& self.wgc_selected_png_evidence_present
        &&& self.selected_output_effect_accepted
        &&& self.selected_only_png
        &&& self.png_byte_len > 0
        &&& self.png_byte_len == self.copied_png_byte_len
        &&& self.effect.spec_is_copy_only()
        &&& self.effect.png_byte_len == self.png_byte_len
    }

    pub fn proves_clipboard_copy(&self) -> (r: bool)
        ensures
            r == self.spec_proves_clipboard_copy(),
    {
        self.diagnostic_only && !self.readiness_changed && !self.alt_a_changed
            && !self.persistent_handle_exposed && self.wgc_selected_png_evidence_present
            && self.selected_output_effect_accepted && self.selected_only_png && self.png_byte_len > 0
            && self.png_byte_len == self.copied_png_byte_len && self.effect.is_copy_only()
            && self.effect.png_byte_len == self.png_byte_len
    }
}

/// What a fake-sink acceptance run established.
#[derive(Debug, Clone, PartialEq, Eq)]
pub struct WgcSelectedOutputFakeSinkAcceptanceReceipt {
    pub source: &'static str,
    pub diagnostic_only: bool,
    pub readiness_changed: bool,
    pub alt_a_changed: bool,
    pub persistent_handle_exposed: bool,
    pub wgc_selected_png_evidence_present: bool,
    pub fake_sink_copy_accepted: bool,
    pub sink: &'static str,
    pub sink_calls: usize,
    pub selected_only_png: bool,
    pub png_byte_len: usize,
    pub copied_png_byte_len: usize,
    pub effect: SelectedOutputEffectReceipt,
}

impl WgcSelectedOutputFakeSinkAcceptanceReceipt {
    pub open spec fn spec_proves_fake_sink_copy(&self) -> bool {
        &&& self.diagnostic_only
        &&& !self.readiness_changed
        &&& !self.alt_a_changed
        &&& !self.persistent_handle_exposed
        &&& self.wgc_selected_png_evidence_present
        &&& self.fake_sink_copy_accepted
        &&& self.sink@ == "provided-fake-sink"@
        &&& self.sink_calls == 1
        &&& self.selected_only_png
        &&& self.png_byte_len > 0
        &&& self.png_byte_len == self.copied_png_byte_len
        &&& self.effect.spec_is_copy_only()
        &&& self.effect.png_byte_len == self.png_byte_len
    }

    pub fn proves_fake_sink_copy(&self) -> (r: bool)
        ensures
            r == self.spec_proves_fake_sink_copy(),
    {
        self.diagnostic_only && !self.readiness_changed && !self.alt_a_changed
            && !self.persistent_handle_exposed && self.wgc_selected_png_evidence_present
            && self.fake_sink_copy_accepted && str_eq(self.sink, "provided-fake-sink")
            && self.sink_calls == 1 && self.selected_only_png && self.png_byte_len > 0
            && self.png_byte_len == self.copied_png_byte_len && self.effect.is_copy_only()
            && self.effect.png_byte_len == self.png_byte_len
    }
}

/// Copies a WGC selected PNG through `sink` and records what that shows.
///
/// A refused copy leaves the sink untouched; otherwise the sink's error is passed on as it
/// is, and its success gives a diagnostic that changes no readiness, exposes no handle,
/// and names `sink_name`.
pub fn accept_wgc_selected_output_clipboard_with_sink<S: SelectedOutputEffectSink>(
    image: SelectedImageContract,
    explicit_opt_in: bool,
    sink_name: &'static str,
    sink: &mut S,
) -> (r: Result<WgcSelectedOutputClipboardAcceptanceReceipt, SelectedOutputEffectError>)
    requires
        base64_encoded_len(image.png_bytes@.len()) <= usize::MAX,
    ensures
        match spec_copy_refusal(image, explicit_opt_in) {
            Some(e) => r == Err::<WgcSelectedOutputClipboardAcceptanceReceipt, SelectedOutputEffectError>(
                e,
            ) && *final(sink) == *old(sink),
            None => exists|copy_result: Result<(), SelectedOutputEffectError>|
                match #[trigger] spec_png_copy_outcome(image, copy_result) {
                    Err(e) => r == Err::<WgcSelectedOutputClipboardAcceptanceReceipt, SelectedOutputEffectError>(e),
                    Ok(effect) => r matches Ok(receipt) && receipt.effect == effect && {
                        &&& receipt.source@ == "wgc-selected-png-evidence"@
                        &&& receipt.diagnostic_only && !receipt.readiness_changed && !receipt.alt_a_changed
                        &&& !receipt.persistent_handle_exposed && receipt.wgc_selected_png_evidence_present
                        &&& receipt.selected_output_effect_accepted
                        &&& receipt.sink == sink_name
                        &&& receipt.selected_only_png
                        &&& receipt.png_byte_len == image.png_bytes@.len()
                        &&& receipt.copied_png_byte_len == image.png_bytes@.len()
                        &&& receipt.effect == spec_png_copy_receipt(image)
                    },
                },
        },
{
    let png_byte_len = image.byte_len();
    let selected_only_png = image.is_selected_only_png();
    let ghost original = image;
    let contract = clipboard_copy_contract_for_png(image);
    let copied_png_byte_len = contract.image.png_bytes.len();
    let outcome = perform_selected_output_effect_with_sink(
        &contract,
        SelectedOutputEffectRequest { explicit_opt_in },
        sink,
    );
    proof {
        if spec_copy_refusal(original, explicit_opt_in) is None {
            let copy_result = choose|copy_result: Result<(), SelectedOutputEffectError>|
                outcome == #[trigger] spec_effect_outcome(contract, copy_result);
            assert(spec_png_copy_outcome(original, copy_result) == outcome);
        }
    }
    let effect = match outcome {
        Ok(effect) => effect,
        Err(e) => {
            return Err(e);
        },
    };
    Ok(
        WgcSelectedOutputClipboardAcceptanceReceipt {
            source: "wgc-selected-png-evidence",
            diagnostic_only: true,
            readiness_changed: false,
            alt_a_changed: false,
            persistent_handle_exposed: false,
            wgc_selected_png_evidence_present: true,
            selected_output_effect_accepted: true,
            sink: sink_name,
            selected_only_png,
            png_byte_len,
            copied_png_byte_len,
            effect,
        },
    )
}

/// The same acceptance, through a caller's fake sink, recorded as a fake-sink run.
pub fn accept_wgc_selected_output_fake_sink_copy<S: SelectedOutputEffectSink>(
    image: SelectedImageContract,
    explicit_opt_in: bool,
    sink: &mut S,
) -> (r: Result<WgcSelectedOutputFakeSinkAcceptanceReceipt, SelectedOutputEffectError>)
    requires
        base64_encoded_len(image.png_bytes@.len()) <= usize::MAX,
    ensures
        match spec_copy_refusal(image, explicit_opt_in) {
            Some(e) => r == Err::<WgcSelectedOutputFakeSinkAcceptanceReceipt, SelectedOutputEffectError>(
                e,
            ) && *final(sink) == *old(sink),
            None => exists|copy_result: Result<(), SelectedOutputEffectError>|
                match #[trigger] spec_png_copy_outcome(image, copy_result) {
                    Err(e) => r == Err::<WgcSelectedOutputFakeSinkAcceptanceReceipt, SelectedOutputEffectError>(e),
                    Ok(effect) => r matches Ok(receipt) && receipt.effect == effect && {
                        &&& receipt.source@ == "wgc-selected-png-evidence"@
                        &&& receipt.sink@ == "provided-fake-sink"@
                        &&& receipt.sink_calls == 1
                        &&& receipt.fake_sink_copy_accepted
                        &&& receipt.png_byte_len == image.png_bytes@.len()
                        &&& receipt.effect == spec_png_copy_receipt(image)
                        &&& (image.png_bytes@.len() > 0 ==> receipt.spec_proves_fake_sink_copy())
                    },
                },
        },
{
    let outcome = accept_wgc_selected_output_clipboard_with_sink(
        image,
        explicit_opt_in,
        "provided-fake-sink",
        sink,
    );
    let receipt = match outcome {
        Ok(receipt) => receipt,
        Err(e) => {
            return Err(e);
        },
    };
    Ok(
        WgcSelectedOutputFakeSinkAcceptanceReceipt {
            source: "wgc-selected-png-evidence",
            diagnostic_only: true,
            readiness_changed: false,
            alt_a_changed: false,
            persistent_handle_exposed: false,
            wgc_selected_png_evidence_present: true,
            fake_sink_copy_accepted: true,
            sink: "provided-fake-sink",
            sink_calls: 1,
            selected_only_png: receipt.selected_only_png,
            png_byte_len: receipt.png_byte_len,
            copied_png_byte_len: receipt.copied_png_byte_len,
            effect: receipt.effect,
        },
    )
}

} // verus!
