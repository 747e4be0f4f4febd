//! Preparing a selected PNG for the clipboard, and checking what the clipboard gave back.
use vstd::prelude::*;

use crate::selected_output_effects::SelectedOutputEffectError;
use crate::text::{lower_hex_digits, push_lower_hex_digits};

verus! {

/// What `image::load_from_memory_with_format(png, ImageFormat::Png)` followed by
/// `to_rgba8()` yields for the PNG bytes `png`: the width, the height and the RGBA bytes
/// of the decoded image, or the text of the decoder's error.
pub uninterp spec fn png_rgba8_decoding(png: Seq<u8>) -> Result<(u32, u32, Seq<u8>), Seq<char>>;

/// Decodes a PNG into RGBA bytes with the `image` crate.
///
/// Trusted: calls `image::load_from_memory_with_format` with `ImageFormat::Png`, converts
/// the image with `to_rgba8`, and returns its dimensions and raw buffer, or the error's
/// text. The contract only ties the result to the name of that computation; it says
/// nothing of what the decoder accepts.
#[verifier::external_body]
fn decode_png_rgba8(png_bytes: &[u8]) -> (r: Result<(u32, u32, Vec<u8>), String>)
    ensures
        match (r, png_rgba8_decoding(png_bytes@)) {
            (Ok((w, h, bytes)), Ok((dw, dh, dbytes))) => w == dw && h == dh && bytes@ == dbytes,
            (Err(e), Err(de)) => e@ == de,
            _ => false,
        },
{
    match image::load_from_memory_with_format(png_bytes, image::ImageFormat::Png) {
        Ok(decoded) => {
            let rgba = decoded.to_rgba8();
            let (width, height) = rgba.dimensions();
            Ok((width, height, rgba.into_raw()))
        },
        Err(error) => Err(error.to_string()),
    }
}

/// An RGBA image as the clipboard takes and gives it.
#[derive(Debug, Clone, PartialEq, Eq)]
pub struct ClipboardImage {
    pub width: usize,
    pub height: usize,
    pub bytes: Vec<u8>,
}

/// The clipboard image of a selected PNG: its decoded RGBA pixels, or a clipboard-write
/// failure naming the decoder's error.
pub fn decode_png_for_clipboard(png_bytes: &[u8]) -> (r: Result<ClipboardImage, SelectedOutputEffectError>)
    ensures
        match png_rgba8_decoding(png_bytes@) {
            Ok((w, h, bytes)) => r matches Ok(image) && image.width == w && image.height == h
                && image.bytes@ == bytes,
            Err(e) => r matches Err(SelectedOutputEffectError::ClipboardWriteFailed(message))
                && message@ == "parse selected PNG failed: "@ + e,
        },
{
    match decode_png_rgba8(png_bytes) {
        Ok((width, height, bytes)) => Ok(
            ClipboardImage { width: width as usize, height: height as usize, bytes },
        ),
        Err(e) => {
            let mut message = String::from_str("parse selected PNG failed: ");
            message.append(e.as_str());
            Err(SelectedOutputEffectError::ClipboardWriteFailed(message))
        },
    }
}

/// The FNV-1a 64-bit hash of `bytes`.
pub open spec fn fnv1a64(bytes: Seq<u8>) -> u64
    decreases bytes.len(),
{
    if bytes.len() == 0 {
        0xcbf29ce484222325u64
    } else {
        let prev = fnv1a64(bytes.drop_last());
        (((prev ^ (bytes.last() as u64)) as nat * 0x100000001b3nat) % 0x1_0000_0000_0000_0000nat) as u64
    }
}

/// `fnv1a64:` and the hash of `bytes` as sixteen lower-case hexadecimal digits.
pub open spec fn spec_rgba_fingerprint(bytes: Seq<u8>) -> Seq<char> {
    "fnv1a64:"@ + lower_hex_digits(fnv1a64(bytes) as nat, 16)
}

pub fn rgba_fingerprint(bytes: &[u8]) -> (r: String)
    ensures
        r@ == spec_rgba_fingerprint(bytes@),
{
    let mut hash: u64 = 0xcbf29ce484222325u64;
    let mut i: usize = 0;
    while i < bytes.len()
        invariant
            i <= bytes@.len(),
            hash == fnv1a64(bytes@.subrange(0, i as int)),
        decreases bytes@.len() - i,
    {
        proof {
            assert(bytes@.subrange(0, i as int + 1).drop_last() =~= bytes@.subrange(0, i as int));
        }
        hash = (hash ^ (bytes[i] as u64)).wrapping_mul(0x100000001b3u64);
        i = i + 1;
    }
    proof {
        assert(bytes@.subrange(0, bytes@.len() as int) =~= bytes@);
    }
    let mut s = String::from_str("fnv1a64:");
    push_lower_hex_digits(&mut s, hash, 16);
    s
}

/// Whether the clipboard gave back the image that was written.
#[derive(Debug, Clone, PartialEq, Eq)]
pub struct ClipboardImageVerification {
    pub expected_width: usize,
    pub expected_height: usize,
    pub actual_width: usize,
    pub actual_height: usize,
    pub expected_byte_len: usize,
    pub actual_byte_len: usize,
    pub expected_rgba_fingerprint: String,
    pub actual_rgba_fingerprint: String,
    pub dimensions_match: bool,
    pub bytes_match: bool,
}

impl ClipboardImageVerification {
    pub open spec fn spec_confirmed(&self) -> bool {
        self.dimensions_match && self.bytes_match
    }

    pub fn confirmed(&self) -> (r: bool)
        ensures
            r == self.spec_confirmed(),
    {
        self.dimensions_match && self.bytes_match
    }
}

fn same_bytes(a: &Vec<u8>, b: &Vec<u8>) -> (r: bool)
    ensures
        r == (a@ == b@),
{
    if a.len() != b.len() {
        return false;
    }
    let mut i: usize = 0;
    while i < a.len()
        invariant
            a@.len() == b@.len(),
            i <= a@.len(),
            forall|j: int| 0 <= j < i ==> a@[j] == b@[j],
        decreases a@.len() - i,
    {
        if a[i] != b[i] {
            return false;
        }
        i = i + 1;
    }
    proof {
        assert(a@ =~= b@);
    }
    true
}

/// Compares the image written to the clipboard with the image read back from it.
pub fn verify_clipboard_image_data(expected: &ClipboardImage, actual: &ClipboardImage) -> (r:
    ClipboardImageVerification)
    ensures
        r.expected_width == expected.width && r.expected_height == expected.height,
        r.actual_width == actual.width && r.actual_height == actual.height,
        r.expected_byte_len == expected.bytes@.len() && r.actual_byte_len == actual.bytes@.len(),
        r.expected_rgba_fingerprint@ == spec_rgba_fingerprint(expected.bytes@),
        r.actual_rgba_fingerprint@ == spec_rgba_fingerprint(actual.bytes@),
        r.dimensions_match == (expected.width == actual.width && expected.height == actual.height),
        r.bytes_match == (expected.bytes@ == actual.bytes@),
{
    ClipboardImageVerification {
        expected_width: expected.width,
        expected_height: expected.height,
        actual_width: actual.width,
        actual_height: actual.height,
        expected_byte_len: expected.bytes.len(),
        actual_byte_len: actual.bytes.len(),
        expected_rgba_fingerprint: rgba_fingerprint(expected.bytes.as_slice()),
        actual_rgba_fingerprint: rgba_fingerprint(actual.bytes.as_slice()),
        dimensions_match: expected.width == actual.width && expected.height == actual.height,
        bytes_match: same_bytes(&expected.bytes, &actual.bytes),
    }
}

/// What a verifying clipboard write reports: success only when the clipboard gave back
/// the same dimensions and bytes.
pub fn verified_clipboard_write_result(verification: &ClipboardImageVerification) -> (r: Result<
    (),
    SelectedOutputEffectError,
>)
    ensures
        verification.spec_confirmed() ==> r is Ok,
        !verification.spec_confirmed() ==> (r matches Err(
            SelectedOutputEffectError::ClipboardWriteFailed(message),
        ) && message@ == "clipboard image verification mismatch after write"@),
{
    if verification.confirmed() {
        Ok(())
    } else {
        Err(
            SelectedOutputEffectError::ClipboardWriteFailed(
                String::from_str("clipboard image verification mismatch after write"),
            ),
        )
    }
}

/// An image read back unchanged is always confirmed, and its two fingerprints agree.
pub proof fn unchanged_clipboard_image_is_confirmed(expected: ClipboardImage, actual: ClipboardImage)
    requires
        expected.width == actual.width,
        expected.height == actual.height,
        expected.bytes@ == actual.bytes@,
    ensures
        spec_rgba_fingerprint(expected.bytes@) == spec_rgba_fingerprint(actual.bytes@),
{
}

} // verus!
