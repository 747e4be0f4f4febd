use screenshot_native::dxgi_selected_output_acceptance::accept_dxgi_selected_output_clipboard_with_sink;
use screenshot_native::output::{
    ClampedSelectionRect, CropRect, ImageBounds, SelectedImageContract, SelectionRect,
};
use screenshot_native::selected_output_effects::{
    SelectedOutputEffectError, SelectedOutputEffectSink,
};
use screenshot_native::wgc_selected_output_acceptance::{
    accept_wgc_selected_output_clipboard_with_sink, accept_wgc_selected_output_fake_sink_copy,
};

#[derive(Default)]
struct FakeClipboardSink {
    calls: usize,
    last_png_len: usize,
}

impl SelectedOutputEffectSink for FakeClipboardSink {
    fn copy_png_to_clipboard(&mut self, png_bytes: &[u8]) -> Result<(), SelectedOutputEffectError> {
        self.calls += 1;
        self.last_png_len = png_bytes.len();
        Ok(())
    }
}

fn dxgi_selected_png() -> SelectedImageContract {
    let png = vec![137, 80, 78, 71, 13, 10, 26, 10, 0, 0, 0, 0];
    SelectedImageContract::new(
        ClampedSelectionRect {
            requested: SelectionRect::new(2, 3, 4, 5),
            crop: CropRect {
                x: 2,
                y: 3,
                width: 4,
                height: 5,
            },
            was_clamped: false,
        },
        png,
        ImageBounds::new(20, 20),
    )
}

fn wgc_selected_png() -> SelectedImageContract {
    SelectedImageContract::new(
        ClampedSelectionRect {
            requested: SelectionRect::new(0, 0, 1, 1),
            crop: CropRect {
                x: 0,
                y: 0,
                width: 1,
                height: 1,
            },
            was_clamped: false,
        },
        vec![137, 80, 78, 71, 13, 10, 26, 10, 1],
        ImageBounds::new(1, 1),
    )
}

#[test]
fn fake_sink_acceptance_proves_dxgi_selected_png_can_copy() {
    let mut sink = FakeClipboardSink::default();
    let receipt =
        accept_dxgi_selected_output_clipboard_with_sink(dxgi_selected_png(), true, &mut sink)
            .expect("fake clipboard acceptance");

    assert!(receipt.proves_fake_sink_copy());
    assert_eq!(sink.calls, 1);
    assert_eq!(sink.last_png_len, receipt.effect.png_byte_len);
    assert!(receipt.effect.selected_only_png);
    assert!(receipt.effect.copied_to_clipboard);
    assert!(!receipt.effect.save_invoked);
    assert!(!receipt.effect.ocr_invoked);
    assert!(!receipt.effect.translation_invoked);
}

#[test]
fn dxgi_selected_output_acceptance_fake_sink_acceptance_requires_explicit_opt_in() {
    let mut sink = FakeClipboardSink::default();
    let error =
        accept_dxgi_selected_output_clipboard_with_sink(dxgi_selected_png(), false, &mut sink)
            .expect_err("explicit opt-in required");

    assert_eq!(error, SelectedOutputEffectError::ExplicitOptInRequired);
    assert_eq!(sink.calls, 0);
}

#[test]
fn fake_sink_acceptance_proves_wgc_selected_png_can_copy() {
    let mut sink = FakeClipboardSink::default();

    let receipt = accept_wgc_selected_output_fake_sink_copy(wgc_selected_png(), true, &mut sink)
        .expect("fake sink acceptance");

    assert!(receipt.proves_fake_sink_copy());
    assert_eq!(sink.calls, 1);
    assert_eq!(sink.last_png_len, receipt.png_byte_len);
    assert!(!receipt.readiness_changed);
    assert!(!receipt.alt_a_changed);
    assert!(!receipt.persistent_handle_exposed);
}

#[test]
fn wgc_selected_output_acceptance_fake_sink_acceptance_requires_explicit_opt_in() {
    let mut sink = FakeClipboardSink::default();

    let error = accept_wgc_selected_output_fake_sink_copy(wgc_selected_png(), false, &mut sink)
        .unwrap_err();

    assert!(matches!(
        error,
        SelectedOutputEffectError::ExplicitOptInRequired
    ));
    assert_eq!(sink.calls, 0);
}

#[test]
fn acceptance_rejects_png_without_signature() {
    let mut sink = FakeClipboardSink::default();
    let mut image = wgc_selected_png();
    image.png_bytes = vec![1, 2, 3];
    let error = accept_wgc_selected_output_fake_sink_copy(image, true, &mut sink).unwrap_err();
    assert_eq!(error, SelectedOutputEffectError::InvalidSelectedPng);
    assert_eq!(sink.calls, 0);
}

struct FailingClipboardSink {
    calls: usize,
    copied: Vec<u8>,
}

impl SelectedOutputEffectSink for FailingClipboardSink {
    fn copy_png_to_clipboard(&mut self, png_bytes: &[u8]) -> Result<(), SelectedOutputEffectError> {
        self.calls += 1;
        self.copied = png_bytes.to_vec();
        Err(SelectedOutputEffectError::ClipboardWriteFailed("clipboard busy".to_string()))
    }
}

#[test]
fn acceptance_passes_the_sink_error_through() {
    let busy = SelectedOutputEffectError::ClipboardWriteFailed("clipboard busy".to_string());

    let mut sink = FailingClipboardSink { calls: 0, copied: Vec::new() };
    let image = dxgi_selected_png();
    let expected = image.png_bytes.clone();
    let error = accept_dxgi_selected_output_clipboard_with_sink(image, true, &mut sink).unwrap_err();
    assert_eq!(error, busy);
    assert_eq!(sink.calls, 1);
    assert_eq!(sink.copied, expected);

    let mut sink = FailingClipboardSink { calls: 0, copied: Vec::new() };
    let image = wgc_selected_png();
    let expected = image.png_bytes.clone();
    let error =
        accept_wgc_selected_output_clipboard_with_sink(image, true, "system-clipboard", &mut sink).unwrap_err();
    assert_eq!(error, busy);
    assert_eq!(sink.copied, expected);

    let mut sink = FailingClipboardSink { calls: 0, copied: Vec::new() };
    let error = accept_wgc_selected_output_fake_sink_copy(wgc_selected_png(), true, &mut sink).unwrap_err();
    assert_eq!(error, busy);
    assert_eq!(sink.calls, 1);
}
