//! Carrying out a selected-output action: copying the selected PNG to the clipboard.
use vstd::prelude::*;

use crate::output::{OutputAction, OutputBridgeTarget, OutputImageFormat};
use crate::selected_image_bridge::{action_debug_name, action_debug_name_exec, SelectedImageBridgeContract};

verus! {

/// Whether the caller explicitly allowed the effect to run.
#[derive(Debug, Clone, Copy, PartialEq, Eq, Structural)]
pub struct SelectedOutputEffectRequest {
    pub explicit_opt_in: bool,
}

/// What an effect did, and what it did not do.
#[derive(Debug, Clone, Copy, PartialEq, Eq, Structural)]
pub struct SelectedOutputEffectReceipt {
    pub action: OutputAction,
    pub target: OutputBridgeTarget,
    pub format: OutputImageFormat,
    pub selected_only_png: bool,
    pub png_byte_len: usize,
    pub copied_to_clipboard: bool,
    pub save_invoked: bool,
    pub ocr_invoked: bool,
    pub translation_invoked: bool,
}

impl SelectedOutputEffectReceipt {
    /// The receipt records a clipboard copy and nothing else.
    pub open spec fn spec_is_copy_only(&self) -> bool {
        &&& self.action is Copy
        &&& self.target is Clipboard
        &&& self.copied_to_clipboard
        &&& !self.save_invoked
        &&& !self.ocr_invoked
        &&& !self.translation_invoked
    }

    pub fn is_copy_only(&self) -> (r: bool)
        ensures
            r == self.spec_is_copy_only(),
    {
        let copy_action = match self.action {
            OutputAction::Copy => true,
            _ => false,
        };
        let clipboard_target = match self.target {
            OutputBridgeTarget::Clipboard => true,
            _ => false,
        };
        copy_action && clipboard_target && self.copied_to_clipboard && !self.save_invoked
            && !self.ocr_invoked && !self.translation_invoked
    }
}

/// Why an effect did not run, or failed.
#[derive(Debug, Clone, PartialEq, Eq)]
pub enum SelectedOutputEffectError {
    ExplicitOptInRequired,
    UnsupportedAction(OutputAction),
    InvalidSelectedPng,
    ClipboardWriteFailed(String),
}

impl SelectedOutputEffectError {
    pub open spec fn spec_message(&self) -> Seq<char> {
        match self {
            SelectedOutputEffectError::ExplicitOptInRequired =>
                "selected output effects require explicit opt-in"@,
            SelectedOutputEffectError::UnsupportedAction(action) =>
                "selected output effect only supports copy action: "@ + action_debug_name(*action),
            SelectedOutputEffectError::InvalidSelectedPng =>
                "selected output effect requires valid selected-only PNG evidence"@,
            SelectedOutputEffectError::ClipboardWriteFailed(message) =>
                "copy selected output to clipboard failed: "@ + message@,
        }
    }

    pub fn to_string(&self) -> (r: String)
        ensures
            r@ == self.spec_message(),
    {
        let mut s = String::new();
        match self {
            SelectedOutputEffectError::ExplicitOptInRequired => {
                s.append("selected output effects require explicit opt-in");
            },
            SelectedOutputEffectError::UnsupportedAction(action) => {
                s.append("selected output effect only supports copy action: ");
                s.append(action_debug_name_exec(*action));
            },
            SelectedOutputEffectError::InvalidSelectedPng => {
                s.append("selected output effect requires valid selected-only PNG evidence");
            },
            SelectedOutputEffectError::ClipboardWriteFailed(message) => {
                s.append("copy selected output to clipboard failed: ");
                s.append(message.as_str());
            },
        }
        proof {
            assert(s@ =~= self.spec_message());
        }
        s
    }
}

/// Where a selected PNG is copied: the system clipboard in the application, a recording
/// fake in tests.
pub trait SelectedOutputEffectSink {
    fn copy_png_to_clipboard(&mut self, png_bytes: &[u8]) -> Result<(), SelectedOutputEffectError>;
}

/// The error that stops an effect before the sink is used, if any: the opt-in comes
/// first, then the action (only copy to the clipboard), then the selected-only PNG.
pub open spec fn spec_effect_refusal(
    contract: SelectedImageBridgeContract,
    request: SelectedOutputEffectRequest,
) -> Option<SelectedOutputEffectError> {
    if !request.explicit_opt_in {
        Some(SelectedOutputEffectError::ExplicitOptInRequired)
    } else if !(contract.action is Copy && contract.target is Clipboard) {
        Some(SelectedOutputEffectError::UnsupportedAction(contract.action))
    } else if !contract.image.spec_is_selected_only_png() {
        Some(SelectedOutputEffectError::InvalidSelectedPng)
    } else {
        None
    }
}

/// The receipt of a copy that the sink accepted.
pub open spec fn spec_copy_receipt(contract: SelectedImageBridgeContract) -> SelectedOutputEffectReceipt {
    SelectedOutputEffectReceipt {
        action: contract.action,
        target: contract.target,
        format: contract.format,
        selected_only_png: true,
        png_byte_len: contract.image.png_bytes@.len() as usize,
        copied_to_clipboard: true,
        save_invoked: false,
        ocr_invoked: false,
        translation_invoked: false,
    }
}

/// The answer of an effect that was not refused, given the sink's answer.
pub open spec fn spec_effect_outcome(
    contract: SelectedImageBridgeContract,
    copy_result: Result<(), SelectedOutputEffectError>,
) -> Result<SelectedOutputEffectReceipt, SelectedOutputEffectError> {
    match copy_result {
        Ok(_) => Ok(spec_copy_receipt(contract)),
        Err(e) => Err(e),
    }
}

/// What an effect that was not refused answers once the sink has answered: the copy
/// receipt when the sink wrote the PNG, the sink's own error otherwise.
pub fn selected_output_effect_outcome(
    contract: &SelectedImageBridgeContract,
    copy_result: Result<(), SelectedOutputEffectError>,
) -> (r: Result<SelectedOutputEffectReceipt, SelectedOutputEffectError>)
    ensures
        r == spec_effect_outcome(*contract, copy_result),
{
    match copy_result {
        Err(e) => Err(e),
        Ok(_) => Ok(
            SelectedOutputEffectReceipt {
                action: contract.action,
                target: contract.target,
                format: contract.format,
                selected_only_png: true,
                png_byte_len: contract.image.byte_len(),
                copied_to_clipboard: true,
                save_invoked: false,
                ocr_invoked: false,
                translation_invoked: false,
            },
        ),
    }
}

/// The bytes that an effect hands to its sink: the refusal, if the request is refused,
/// and otherwise exactly the selected PNG of the contract.
pub fn selected_output_effect_payload<'a>(
    contract: &'a SelectedImageBridgeContract,
    request: SelectedOutputEffectRequest,
) -> (r: Result<&'a [u8], SelectedOutputEffectError>)
    ensures
        r is Err <==> spec_effect_refusal(*contract, request) is Some,
        match spec_effect_refusal(*contract, request) {
            Some(e) => r == Err::<&[u8], SelectedOutputEffectError>(e),
            None => r matches Ok(bytes) && bytes@ == contract.image.png_bytes@,
        },
{
    if !request.explicit_opt_in {
        return Err(SelectedOutputEffectError::ExplicitOptInRequired);
    }
    let supported = match (contract.action, contract.target) {
        (OutputAction::Copy, OutputBridgeTarget::Clipboard) => true,
        _ => false,
    };
    if !supported {
        return Err(SelectedOutputEffectError::UnsupportedAction(contract.action));
    }
    if !contract.image.is_selected_only_png() {
        return Err(SelectedOutputEffectError::InvalidSelectedPng);
    }
    Ok(contract.image.png_bytes.as_slice())
}

/// Copies the selected PNG of `contract` to the sink, once.
///
/// A refused request leaves the sink untouched. Otherwise the sink is handed what
/// `selected_output_effect_payload` gives, the PNG bytes; its error is passed on as it
/// is, and its success gives the copy receipt.
pub fn perform_selected_output_effect_with_sink<S: SelectedOutputEffectSink>(
    contract: &SelectedImageBridgeContract,
    request: SelectedOutputEffectRequest,
    sink: &mut S,
) -> (r: Result<SelectedOutputEffectReceipt, SelectedOutputEffectError>)
    ensures
        match spec_effect_refusal(*contract, request) {
            Some(e) => r == Err::<SelectedOutputEffectReceipt, SelectedOutputEffectError>(e)
                && *final(sink) == *old(sink),
            None => exists|copy_result: Result<(), SelectedOutputEffectError>|
                r == #[trigger] spec_effect_outcome(*contract, copy_result),
        },
{
    let png_bytes = match selected_output_effect_payload(contract, request) {
        Ok(bytes) => bytes,
        Err(e) => return Err(e),
    };
    let copy_result = sink.copy_png_to_clipboard(png_bytes);
    selected_output_effect_outcome(contract, copy_result)
}

/// An effect never reports a save, an OCR run or a translation: every receipt it can
/// give is a copy-only receipt of a selected-only PNG.
pub proof fn effect_receipts_are_copy_only(contract: SelectedImageBridgeContract)
    requires
        spec_effect_refusal(
            contract,
            SelectedOutputEffectRequest { explicit_opt_in: true },
        ) is None,
    ensures
        spec_copy_receipt(contract).spec_is_copy_only(),
        spec_copy_receipt(contract).selected_only_png,
{
}

} // verus!
