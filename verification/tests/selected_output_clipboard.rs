use screenshot_native::capture::RgbaFrame;
use screenshot_native::output::{OutputAction, SelectionRect};
use screenshot_native::selected_image_bridge::build_selected_image_bridge_contract;
use screenshot_native::selected_output_clipboard::{
    decode_png_for_clipboard, rgba_fingerprint, verified_clipboard_write_result,
    verify_clipboard_image_data, ClipboardImage,
};
use screenshot_native::selected_output_effects::SelectedOutputEffectError;

fn copy_png_bytes() -> Vec<u8> {
    let frame = RgbaFrame::new(2, 1, vec![255, 0, 0, 255, 0, 255, 0, 255])
        .expect("valid test frame");
    build_selected_image_bridge_contract(
        OutputAction::Copy,
        &frame,
        SelectionRect::new(0, 0, 2, 1),
    )
    .expect("copy bridge contract")
    .image
    .png_bytes
}

#[test]
fn clipboard_png_decoder_preserves_dimensions_and_rgba_bytes() {
    let png_bytes = copy_png_bytes();
    let image = decode_png_for_clipboard(&png_bytes).expect("clipboard image");

    assert_eq!(image.width, 2);
    assert_eq!(image.height, 1);
    assert_eq!(image.bytes.as_slice(), &[255, 0, 0, 255, 0, 255, 0, 255]);
}

#[test]
fn clipboard_png_decoder_rejects_corrupted_png() {
    let error = decode_png_for_clipboard(b"not a png").expect_err("invalid png rejected");

    assert!(matches!(
        error,
        SelectedOutputEffectError::ClipboardWriteFailed(message)
            if message.contains("parse selected PNG failed")
    ));
}

#[test]
fn clipboard_image_verification_confirms_matching_dimensions_and_bytes() {
    let expected = ClipboardImage {
        width: 2,
        height: 1,
        bytes: vec![255, 0, 0, 255, 0, 255, 0, 255],
    };
    let actual = ClipboardImage {
        width: 2,
        height: 1,
        bytes: vec![255, 0, 0, 255, 0, 255, 0, 255],
    };
    let verification = verify_clipboard_image_data(&expected, &actual);

    assert_eq!(verification.expected_width, 2);
    assert_eq!(verification.expected_height, 1);
    assert_eq!(verification.actual_width, 2);
    assert_eq!(verification.actual_height, 1);
    assert_eq!(verification.expected_byte_len, 8);
    assert_eq!(verification.actual_byte_len, 8);
    assert_eq!(
        verification.expected_rgba_fingerprint,
        verification.actual_rgba_fingerprint
    );
    assert!(verification
        .expected_rgba_fingerprint
        .starts_with("fnv1a64:"));
    assert!(verification.dimensions_match);
    assert!(verification.bytes_match);
    assert!(verification.confirmed());
}

#[test]
fn clipboard_image_verification_rejects_dimension_or_byte_mismatch() {
    let expected = ClipboardImage {
        width: 2,
        height: 1,
        bytes: vec![255, 0, 0, 255, 0, 255, 0, 255],
    };
    let actual = ClipboardImage {
        width: 1,
        height: 2,
        bytes: vec![255, 0, 0, 255, 0, 0, 255, 255],
    };
    let verification = verify_clipboard_image_data(&expected, &actual);

    assert!(!verification.dimensions_match);
    assert!(!verification.bytes_match);
    assert_ne!(
        verification.expected_rgba_fingerprint,
        verification.actual_rgba_fingerprint
    );
    assert!(!verification.confirmed());
}

#[test]
fn rgba_fingerprint_is_fnv1a64_in_lower_hex() {
    assert_eq!(rgba_fingerprint(&[]), "fnv1a64:cbf29ce484222325");
    assert_eq!(rgba_fingerprint(b"a"), "fnv1a64:af63dc4c8601ec8c");
}

#[test]
fn verified_write_result_reports_mismatch() {
    let expected = ClipboardImage { width: 1, height: 1, bytes: vec![1, 2, 3, 4] };
    let same = ClipboardImage { width: 1, height: 1, bytes: vec![1, 2, 3, 4] };
    let other = ClipboardImage { width: 1, height: 1, bytes: vec![1, 2, 3, 5] };
    assert_eq!(
        verified_clipboard_write_result(&verify_clipboard_image_data(&expected, &same)),
        Ok(())
    );
    assert_eq!(
        verified_clipboard_write_result(&verify_clipboard_image_data(&expected, &other)),
        Err(SelectedOutputEffectError::ClipboardWriteFailed(
            "clipboard image verification mismatch after write".to_string()
        ))
    );
}
