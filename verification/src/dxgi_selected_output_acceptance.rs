//! Accepting a DXGI selected PNG for the clipboard, through a caller's sink.
use vstd::prelude::*;

use crate::output::SelectedImageContract;
use crate::selected_image_bridge::{base64_encoded_len, clipboard_copy_contract_for_png};
use crate::selected_output_effects::{
    perform_selected_output_effect_with_sink, spec_effect_outcome, SelectedOutputEffectError, SelectedOutputEffectReceipt,
    SelectedOutputEffectRequest, SelectedOutputEffectSink,
};
use crate::text::str_eq;
use crate::wgc_selected_output_acceptance::{
    spec_copy_refusal, spec_png_copy_outcome, spec_png_copy_receipt,
};

verus! {

/// What a DXGI clipboard acceptance run established.
#[derive(Debug, Clone, PartialEq, Eq)]
pub struct DxgiSelectedOutputClipboardAcceptanceReceipt {
    pub effect: SelectedOutputEffectReceipt,
    pub diagnostic_only: bool,
    pub readiness_changed: bool,
    pub persistent_handle_exposed: bool,
    pub sink: &'static str,
}

impl DxgiSelectedOutputClipboardAcceptanceReceipt {
    pub open spec fn spec_proves_fake_sink_copy(&self) -> bool {
        &&& self.effect.spec_is_copy_only()
        &&& self.diagnostic_only
        &&& !self.readiness_changed
        &&& !self.persistent_handle_exposed
        &&& self.sink@ == "provided-sink"@
    }

    pub fn proves_fake_sink_copy(&self) -> (r: bool)
        ensures
            r == self.spec_proves_fake_sink_copy(),
    {
        self.effect.is_copy_only() && self.diagnostic_only && !self.readiness_changed
            && !self.persistent_handle_exposed && str_eq(self.sink, "provided-sink")
    }
}

/// Copies a DXGI selected PNG through `sink`. A refused copy leaves the sink untouched;
/// otherwise the sink's error is passed on as it is, and its success gives a diagnostic
/// that changes no readiness and exposes no handle.
pub fn accept_dxgi_selected_output_clipboard_with_sink<S: SelectedOutputEffectSink>(
    image: SelectedImageContract,
    explicit_opt_in: bool,
    sink: &mut S,
) -> (r: Result<DxgiSelectedOutputClipboardAcceptanceReceipt, SelectedOutputEffectError>)
    requires
        base64_encoded_len(image.png_bytes@.len()) <= usize::MAX,
    ensures
        match spec_copy_refusal(image, explicit_opt_in) {
            Some(e) => r == Err::<DxgiSelectedOutputClipboardAcceptanceReceipt, SelectedOutputEffectError>(
                e,
            ) && *final(sink) == *old(sink),
            None => exists|copy_result: Result<(), SelectedOutputEffectError>|
                match #[trigger] spec_png_copy_outcome(image, copy_result) {
                    Err(e) => r == Err::<DxgiSelectedOutputClipboardAcceptanceReceipt, SelectedOutputEffectError>(e),
                    Ok(effect) => r matches Ok(receipt) && receipt.effect == effect && {
                        &&& receipt.effect == spec_png_copy_receipt(image)
                        &&& receipt.spec_proves_fake_sink_copy()
                    },
                },
        },
{
    let ghost original = image;
    let contract = clipboard_copy_contract_for_png(image);
    let outcome = perform_selected_output_effect_with_sink(
        &contract,
        SelectedOutputEffectRequest { explicit_opt_in },
        sink,
    );
    proof {
        if spec_copy_refusal(original, explicit_opt_in) is None {
            let copy_result = choose|copy_result: Result<(), SelectedOutputEffectError>|
                outcome == #[trigger] spec_effect_outcome(contract, copy_result);
            assert(spec_png_copy_outcome(original, copy_result) == outcome);
        }
    }
    let effect = match outcome {
        Ok(effect) => effect,
        Err(e) => {
            return Err(e);
        },
    };
    Ok(
        DxgiSelectedOutputClipboardAcceptanceReceipt {
            effect,
            diagnostic_only: true,
            readiness_changed: false,
            persistent_handle_exposed: false,
            sink: "provided-sink",
        },
    )
}

} // verus!
