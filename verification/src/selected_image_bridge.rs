//! Turning a selected region of a frame into a PNG and handing it to an output action.
use vstd::prelude::*;

use crate::capture::RgbaFrame;
use crate::output::{
    has_png_signature, starts_with_png_signature, ClampedSelectionRect, CropRect, ImageBounds,
    OutputAction, OutputBridgeContract, OutputBridgeTarget, OutputImageFormat,
    SelectedImageContract, SelectedReadbackContract, SelectionRect,
};

verus! {

pub const PNG_MIME_TYPE: &'static str = "image/png";

pub const PNG_DATA_URL_PREFIX: &'static str = "data:image/png;base64,";

/// The encoder error for a PNG whose base64 length would not fit in `usize`.
pub const PNG_TOO_LARGE_FOR_BASE64: &'static str = "encoded PNG is too large for base64";

/// The actions that hand a PNG to an output, in dry-run order.
pub open spec fn image_bridge_actions() -> Seq<OutputAction> {
    seq![OutputAction::Copy, OutputAction::SaveAs, OutputAction::Ocr, OutputAction::Translate]
}

fn image_bridge_actions_exec() -> (r: Vec<OutputAction>)
    ensures
        r@ == image_bridge_actions(),
{
    let r = vec![OutputAction::Copy, OutputAction::SaveAs, OutputAction::Ocr, OutputAction::Translate];
    proof {
        assert(r@ =~= image_bridge_actions());
    }
    r
}

// ---------------------------------------------------------------------------------------------
// Encodings provided by outside crates.
/// The base64 alphabet of RFC 4648 (standard, with `+` and `/`).
pub open spec fn base64_char(v: int) -> char {
    if v < 26 {
        (65 + v) as char
    } else if v < 52 {
        (97 + (v - 26)) as char
    } else if v < 62 {
        (48 + (v - 52)) as char
    } else if v == 62 {
        '+'
    } else {
        '/'
    }
}

/// Standard padded base64 of `bytes`: each group of three bytes becomes four characters,
/// and a final group of one or two bytes is padded with `=`.
pub open spec fn base64_standard(bytes: Seq<u8>) -> Seq<char>
    decreases bytes.len(),
{
    if bytes.len() == 0 {
        Seq::empty()
    } else if bytes.len() == 1 {
        let b0 = bytes[0] as int;
        seq![base64_char(b0 / 4), base64_char((b0 % 4) * 16), '=', '=']
    } else if bytes.len() == 2 {
        let b0 = bytes[0] as int;
        let b1 = bytes[1] as int;
        seq![
            base64_char(b0 / 4),
            base64_char((b0 % 4) * 16 + b1 / 16),
            base64_char((b1 % 16) * 4),
            '=',
        ]
    } else {
        let b0 = bytes[0] as int;
        let b1 = bytes[1] as int;
        let b2 = bytes[2] as int;
        seq![
            base64_char(b0 / 4),
            base64_char((b0 % 4) * 16 + b1 / 16),
            base64_char((b1 % 16) * 4 + b2 / 64),
            base64_char(b2 % 64),
        ] + base64_standard(bytes.subrange(3, bytes.len() as int))
    }
}

/// The length of the padded base64 of `len` bytes.
pub open spec fn base64_encoded_len(len: nat) -> nat {
    4 * ((len + 2) / 3)
}

/// Standard padded base64, by the `base64` crate's `STANDARD` engine.
///
/// Trusted: `Engine::encode` of `base64::engine::general_purpose::STANDARD` returns the
/// RFC 4648 encoding with padding; it panics only when the encoded length overflows
/// `usize`, which the `requires` leaves out.
#[verifier::external_body]
fn base64_standard_encode(bytes: &[u8]) -> (r: String)
    requires
        base64_encoded_len(bytes@.len()) <= usize::MAX,
    ensures
        r@ == base64_standard(bytes@),
{
    base64::Engine::encode(&base64::engine::general_purpose::STANDARD, bytes)
}

/// The PNG that `image` writes for an RGBA8 buffer of `width` x `height` pixels with fast
/// compression and no filter, or the text of its error.
pub uninterp spec fn png_rgba8_encoding(rgba: Seq<u8>, width: u32, height: u32) -> Result<
    Seq<u8>,
    Seq<char>,
>;

/// Encodes RGBA8 pixels as PNG with `image`'s `PngEncoder` (fast compression, no filter).
///
/// Trusted: `ImageEncoder::write_image` asserts that the buffer holds `width * height * 4`
/// bytes, which the `requires` keeps; the PNG writer refuses a zero width or height, and
/// the first bytes it writes are the PNG signature. What else the bytes are is named by
/// `png_rgba8_encoding`, not stated.
#[verifier::external_body]
fn encode_rgba_png(rgba: &[u8], width: u32, height: u32) -> (r: Result<Vec<u8>, String>)
    requires
        rgba@.len() == width * height * 4,
    ensures
        match r {
            Ok(png) => png_rgba8_encoding(rgba@, width, height) == Ok::<Seq<u8>, Seq<char>>(png@),
            Err(text) => png_rgba8_encoding(rgba@, width, height) == Err::<Seq<u8>, Seq<char>>(
                text@,
            ),
        },
        r matches Ok(png) ==> starts_with_png_signature(png@),
        width == 0 || height == 0 ==> r is Err,
{
    let mut buffer = std::io::Cursor::new(Vec::new());
    let encoder = image::codecs::png::PngEncoder::new_with_quality(
        &mut buffer,
        image::codecs::png::CompressionType::Fast,
        image::codecs::png::FilterType::NoFilter,
    );
    match image::ImageEncoder::write_image(encoder, rgba, width, height, image::ExtendedColorType::Rgba8) {
        Ok(()) => Ok(buffer.into_inner()),
        Err(error) => Err(error.to_string()),
    }
}

// ---------------------------------------------------------------------------------------------
// Contracts, descriptions and diagnostics.
/// A selected PNG bound to an action, with its base64 and data-URL forms.
#[derive(Debug, Clone, PartialEq, Eq)]
pub struct SelectedImageBridgeContract {
    pub action: OutputAction,
    pub target: OutputBridgeTarget,
    pub format: OutputImageFormat,
    pub mime_type: String,
    pub image: SelectedImageContract,
    pub png_base64: String,
    pub data_url: String,
}

/// The shape of a selected image, without its bytes.
#[derive(Debug, Clone, PartialEq, Eq)]
pub struct SelectedImageBridgeDescription {
    pub action: OutputAction,
    pub target: OutputBridgeTarget,
    pub format: OutputImageFormat,
    pub mime_type: String,
    pub rect: SelectionRect,
    pub crop: CropRect,
    pub source_width: u32,
    pub source_height: u32,
    pub png_byte_len: usize,
    pub base64_len: usize,
    pub data_url_len: usize,
    pub selected_only: bool,
    pub readback: Option<SelectedReadbackContract>,
    pub was_clamped: bool,
}

/// Checks of a bridge contract's encodings.
#[derive(Debug, Clone, PartialEq, Eq)]
pub struct SelectedImageBridgeDiagnostics {
    pub description: SelectedImageBridgeDescription,
    pub png_signature_valid: bool,
    pub data_url_prefix_valid: bool,
    pub base64_matches_png: bool,
    pub selected_only_png: bool,
}

/// `s` begins with `prefix`.
pub open spec fn seq_starts_with(s: Seq<char>, prefix: Seq<char>) -> bool {
    s.len() >= prefix.len() && s.subrange(0, prefix.len() as int) == prefix
}

/// Whether `s` begins with `prefix`.
fn str_starts_with(s: &str, prefix: &str) -> (r: bool)
    ensures
        r == seq_starts_with(s@, prefix@),
{
    let n = prefix.unicode_len();
    if s.unicode_len() < n {
        return false;
    }
    let mut i: usize = 0;
    while i < n
        invariant
            n == prefix@.len(),
            n <= s@.len(),
            i <= n,
            forall|j: int| 0 <= j < i ==> s@[j] == prefix@[j],
        decreases n - i,
    {
        if s.get_char(i) != prefix.get_char(i) {
            proof {
                assert(s@.subrange(0, n as int)[i as int] != prefix@[i as int]);
            }
            return false;
        }
        i = i + 1;
    }
    proof {
        assert(s@.subrange(0, n as int) =~= prefix@);
    }
    true
}

/// Whether two strings hold the same characters.
fn string_equals(a: &String, b: &String) -> (r: bool)
    ensures
        r == (a@ == b@),
{
    let n = a.as_str().unicode_len();
    if b.as_str().unicode_len() != n {
        return false;
    }
    let mut i: usize = 0;
    while i < n
        invariant
            n == a@.len(),
            n == b@.len(),
            i <= n,
            forall|j: int| 0 <= j < i ==> a@[j] == b@[j],
        decreases n - i,
    {
        if a.as_str().get_char(i) != b.as_str().get_char(i) {
            return false;
        }
        i = i + 1;
    }
    proof {
        assert(a@ =~= b@);
    }
    true
}

impl SelectedImageBridgeContract {
    pub open spec fn spec_describes(&self, d: SelectedImageBridgeDescription) -> bool {
        &&& d.action == self.action
        &&& d.target == self.target
        &&& d.format == self.format
        &&& d.mime_type@ == self.mime_type@
        &&& d.rect == self.image.rect
        &&& d.crop == self.image.crop
        &&& d.source_width == self.image.source_width
        &&& d.source_height == self.image.source_height
        &&& d.png_byte_len == self.image.png_bytes@.len()
        &&& d.base64_len == vstd::utf8::encode_utf8(self.png_base64@).len() as usize
        &&& d.data_url_len == vstd::utf8::encode_utf8(self.data_url@).len() as usize
        &&& d.selected_only == self.image.spec_is_selected_only_png()
        &&& d.readback == self.image.spec_readback_contract()
        &&& d.was_clamped == self.image.was_clamped
    }

    pub fn description(&self) -> (r: SelectedImageBridgeDescription)
        ensures
            self.spec_describes(r),
    {
        SelectedImageBridgeDescription {
            action: self.action,
            target: self.target,
            format: self.format,
            mime_type: self.mime_type.clone(),
            rect: self.image.rect,
            crop: self.image.crop,
            source_width: self.image.source_width,
            source_height: self.image.source_height,
            png_byte_len: self.image.byte_len(),
            base64_len: self.png_base64.as_str().len(),
            data_url_len: self.data_url.as_str().len(),
            selected_only: self.image.is_selected_only_png(),
            readback: self.image.readback_contract(),
            was_clamped: self.image.was_clamped,
        }
    }

    pub fn diagnostics(&self) -> (r: SelectedImageBridgeDiagnostics)
        requires
            base64_encoded_len(self.image.png_bytes@.len()) <= usize::MAX,
        ensures
            self.spec_describes(r.description),
            r.png_signature_valid == starts_with_png_signature(self.image.png_bytes@),
            r.data_url_prefix_valid == seq_starts_with(self.data_url@, PNG_DATA_URL_PREFIX@),
            r.base64_matches_png == (base64_standard(self.image.png_bytes@) == self.png_base64@),
            r.selected_only_png == self.image.spec_is_selected_only_png(),
    {
        let encoded = base64_standard_encode(self.image.png_bytes.as_slice());
        SelectedImageBridgeDiagnostics {
            description: self.description(),
            png_signature_valid: has_png_signature(&self.image.png_bytes),
            data_url_prefix_valid: str_starts_with(self.data_url.as_str(), PNG_DATA_URL_PREFIX),
            base64_matches_png: string_equals(&encoded, &self.png_base64),
            selected_only_png: self.image.is_selected_only_png(),
        }
    }
}

impl SelectedImageBridgeDiagnostics {
    pub open spec fn spec_is_valid(&self) -> bool {
        self.png_signature_valid && self.data_url_prefix_valid && self.base64_matches_png
            && self.selected_only_png
    }

    pub fn is_valid(&self) -> (r: bool)
        ensures
            r == self.spec_is_valid(),
    {
        self.png_signature_valid && self.data_url_prefix_valid && self.base64_matches_png
            && self.selected_only_png
    }
}

/// What a dry run checked for one output action.
#[derive(Debug, Clone, Copy, PartialEq, Eq)]
pub struct SelectedOutputBridgeDryRunDiagnostic {
    pub action: OutputAction,
    pub target: OutputBridgeTarget,
    pub format: OutputImageFormat,
    pub readback: Option<SelectedReadbackContract>,
    pub png_byte_len: usize,
    pub target_matches_action: bool,
    pub png_signature_valid: bool,
    pub selected_only_png: bool,
}

impl SelectedOutputBridgeDryRunDiagnostic {
    pub open spec fn spec_is_valid(&self) -> bool {
        self.target_matches_action && self.png_signature_valid && self.selected_only_png
    }

    pub fn is_valid(&self) -> (r: bool)
        ensures
            r == self.spec_is_valid(),
    {
        self.target_matches_action && self.png_signature_valid && self.selected_only_png
    }
}

/// The dry run of every image-bridge action on one selected image.
#[derive(Debug, Clone, PartialEq, Eq)]
pub struct SelectedOutputBridgeDryRunReport {
    pub image: SelectedImageBridgeDescription,
    pub diagnostics: Vec<SelectedOutputBridgeDryRunDiagnostic>,
}

impl SelectedOutputBridgeDryRunReport {
    pub open spec fn spec_is_valid(&self) -> bool {
        &&& self.diagnostics@.len() == 4
        &&& forall|i: int|
            0 <= i < self.diagnostics@.len() ==> (#[trigger] self.diagnostics@[i]).spec_is_valid()
    }

    pub fn is_valid(&self) -> (r: bool)
        ensures
            r == self.spec_is_valid(),
    {
        if self.diagnostics.len() != 4 {
            return false;
        }
        let mut i: usize = 0;
        while i < self.diagnostics.len()
            invariant
                i <= self.diagnostics@.len(),
                forall|j: int| 0 <= j < i ==> (#[trigger] self.diagnostics@[j]).spec_is_valid(),
            decreases self.diagnostics@.len() - i,
        {
            if !self.diagnostics[i].is_valid() {
                return false;
            }
            i = i + 1;
        }
        true
    }
}

/// Why no selected image could be built or bridged.
#[derive(Debug, Clone, PartialEq, Eq)]
pub enum SelectedImageBridgeError {
    InvalidFrame(String),
    EmptySelection,
    SelectionOutsideFrame,
    UnsupportedAction(OutputAction),
    ReadbackContractOverflow,
    PngEncodeFailed(String),
}

/// The variant name of an action, as a derived `Debug` prints it.
pub open spec fn action_debug_name(action: OutputAction) -> Seq<char> {
    match action {
        OutputAction::Copy => "Copy"@,
        OutputAction::SaveAs => "SaveAs"@,
        OutputAction::Ocr => "Ocr"@,
        OutputAction::Translate => "Translate"@,
        OutputAction::Record => "Record"@,
    }
}

pub fn action_debug_name_exec(action: OutputAction) -> (r: &'static str)
    ensures
        r@ == action_debug_name(action),
{
    match action {
        OutputAction::Copy => "Copy",
        OutputAction::SaveAs => "SaveAs",
        OutputAction::Ocr => "Ocr",
        OutputAction::Translate => "Translate",
        OutputAction::Record => "Record",
    }
}

impl SelectedImageBridgeError {
    pub open spec fn spec_message(&self) -> Seq<char> {
        match self {
            SelectedImageBridgeError::InvalidFrame(reason) => "invalid RGBA frame: "@ + reason@,
            SelectedImageBridgeError::EmptySelection => "selection is empty"@,
            SelectedImageBridgeError::SelectionOutsideFrame => "selection is outside the frame"@,
            SelectedImageBridgeError::UnsupportedAction(action) => "unsupported output action: "@
                + action_debug_name(*action),
            SelectedImageBridgeError::ReadbackContractOverflow =>
                "selected-region readback contract overflowed"@,
            SelectedImageBridgeError::PngEncodeFailed(reason) => "PNG encode failed: "@ + reason@,
        }
    }

    pub fn to_string(&self) -> (r: String)
        ensures
            r@ == self.spec_message(),
    {
        let mut s = String::new();
        match self {
            SelectedImageBridgeError::InvalidFrame(reason) => {
                s.append("invalid RGBA frame: ");
                s.append(reason.as_str());
            },
            SelectedImageBridgeError::EmptySelection => {
                s.append("selection is empty");
            },
            SelectedImageBridgeError::SelectionOutsideFrame => {
                s.append("selection is outside the frame");
            },
            SelectedImageBridgeError::UnsupportedAction(action) => {
                s.append("unsupported output action: ");
                s.append(action_debug_name_exec(*action));
            },
            SelectedImageBridgeError::ReadbackContractOverflow => {
                s.append("selected-region readback contract overflowed");
            },
            SelectedImageBridgeError::PngEncodeFailed(reason) => {
                s.append("PNG encode failed: ");
                s.append(reason.as_str());
            },
        }
        proof {
            assert(s@ =~= self.spec_message());
        }
        s
    }
}

pub type SelectedImageBridgeResult<T> = Result<T, SelectedImageBridgeError>;

// ---------------------------------------------------------------------------------------------
// Reading the selected region.
/// The bytes of `rows` rows of `row_len` bytes each, starting at byte `x_offset` of row
/// `y` of an image whose rows are `stride` bytes apart.
pub open spec fn crop_rows(bytes: Seq<u8>, stride: nat, x_offset: nat, y: nat, row_len: nat, rows: nat) -> Seq<u8>
    decreases rows,
{
    if rows == 0 {
        Seq::empty()
    } else {
        let r = (rows - 1) as nat;
        let start = (y + r) * stride + x_offset;
        crop_rows(bytes, stride, x_offset, y, row_len, r) + bytes.subrange(
            start as int,
            (start + row_len) as int,
        )
    }
}

/// The RGBA bytes of `crop` taken out of a tightly packed frame.
pub open spec fn spec_cropped_rgba(frame: RgbaFrame, crop: CropRect) -> Seq<u8> {
    crop_rows(
        frame.bytes@,
        (frame.width * 4) as nat,
        (crop.x * 4) as nat,
        crop.y as nat,
        (crop.width * 4) as nat,
        crop.height as nat,
    )
}

/// A region of a readback that a selection is read from.
pub trait SelectedRegionReadbackSource {
    /// The size of the readback.
    spec fn spec_bounds(&self) -> ImageBounds;

    /// The readback is consistent and can be read from.
    spec fn spec_readback_is_valid(&self) -> bool;

    /// The RGBA bytes of a region of the readback.
    spec fn spec_selected_rgba(&self, crop: CropRect) -> Seq<u8>;

    /// The region can be read from the readback.
    spec fn spec_can_read(&self, crop: CropRect) -> bool;

    fn bounds(&self) -> (r: ImageBounds)
        ensures
            r == self.spec_bounds(),
    ;

    fn validate_readback(&self) -> (r: SelectedImageBridgeResult<()>)
        ensures
            r is Ok <==> self.spec_readback_is_valid(),
    ;

    /// The RGBA bytes of `crop`, tightly packed.
    fn read_selected_rgba(&self, crop: CropRect) -> (r: SelectedImageBridgeResult<Vec<u8>>)
        ensures
            r matches Ok(bytes) ==> bytes@ == self.spec_selected_rgba(crop) && bytes@.len()
                == crop.width * crop.height * 4,
            self.spec_can_read(crop) ==> r is Ok,
    ;
}

impl SelectedRegionReadbackSource for RgbaFrame {
    open spec fn spec_bounds(&self) -> ImageBounds {
        ImageBounds { width: self.width, height: self.height }
    }

    open spec fn spec_readback_is_valid(&self) -> bool {
        self.spec_validate() is Ok
    }

    open spec fn spec_selected_rgba(&self, crop: CropRect) -> Seq<u8> {
        spec_cropped_rgba(*self, crop)
    }

    open spec fn spec_can_read(&self, crop: CropRect) -> bool {
        &&& !crop.spec_is_empty()
        &&& crop.x + crop.width <= self.width
        &&& crop.y + crop.height <= self.height
        &&& self.spec_is_tightly_packed_rgba()
    }

    fn bounds(&self) -> (r: ImageBounds) {
        ImageBounds::new(self.width, self.height)
    }

    fn validate_readback(&self) -> (r: SelectedImageBridgeResult<()>) {
        match self.validate() {
            Ok(()) => Ok(()),
            Err(error) => Err(SelectedImageBridgeError::InvalidFrame(error.to_string())),
        }
    }

    fn read_selected_rgba(&self, crop: CropRect) -> (r: SelectedImageBridgeResult<Vec<u8>>) {
        crop_rgba(self, crop)
    }
}

/// The region's bytes: empty and out-of-frame regions are refused; on a tightly packed
/// frame every other region is read.
fn crop_rgba(frame: &RgbaFrame, crop: CropRect) -> (r: SelectedImageBridgeResult<Vec<u8>>)
    ensures
        crop.spec_is_empty() ==> r == Err::<Vec<u8>, SelectedImageBridgeError>(
            SelectedImageBridgeError::EmptySelection,
        ),
        !crop.spec_is_empty() && (crop.spec_right() > frame.width || crop.spec_bottom()
            > frame.height) ==> r == Err::<Vec<u8>, SelectedImageBridgeError>(
            SelectedImageBridgeError::SelectionOutsideFrame,
        ),
        r matches Ok(bytes) ==> bytes@ == spec_cropped_rgba(*frame, crop) && bytes@.len()
            == crop.width * crop.height * 4,
        !crop.spec_is_empty() && crop.x + crop.width <= frame.width && crop.y + crop.height
            <= frame.height && frame.spec_is_tightly_packed_rgba() ==> r is Ok,
        r matches Err(e) ==> e is EmptySelection || e is SelectionOutsideFrame || e is InvalidFrame,
{
    if crop.is_empty() {
        return Err(SelectedImageBridgeError::EmptySelection);
    }
    if crop.right() > frame.width || crop.bottom() > frame.height {
        return Err(SelectedImageBridgeError::SelectionOutsideFrame);
    }
    let ghost packed = frame.spec_is_tightly_packed_rgba() && crop.x + crop.width <= frame.width
        && crop.y + crop.height <= frame.height;
    let total_len = frame.bytes.len();
    proof {
        assert(frame.bytes@.len() == total_len);
        if packed {
            let w = frame.width as int;
            let h = frame.height as int;
            let cw = crop.width as int;
            let ch = crop.height as int;
            assert(frame.bytes@.len() == w * h * 4);
            assert(h >= 1 && w >= 1);
            assert(w * 4 <= w * h * 4) by (nonlinear_arith)
                requires
                    h >= 1,
                    w >= 1,
            ;
            assert(cw * 4 * ch <= w * 4 * h) by (nonlinear_arith)
                requires
                    0 <= cw <= w,
                    0 <= ch <= h,
            ;
            assert(w * 4 * h == w * h * 4) by (nonlinear_arith);
        }
    }
    let source_width = frame.width as usize;
    let crop_x = crop.x as usize;
    let crop_y = crop.y as usize;
    let crop_width = crop.width as usize;
    let crop_height = crop.height as usize;
    let row_bytes = match crop_width.checked_mul(RgbaFrame::BYTES_PER_PIXEL) {
        Some(v) => v,
        None => return Err(
            SelectedImageBridgeError::InvalidFrame(String::from_str("crop row bytes overflow")),
        ),
    };
    let source_stride = match source_width.checked_mul(RgbaFrame::BYTES_PER_PIXEL) {
        Some(v) => v,
        None => return Err(
            SelectedImageBridgeError::InvalidFrame(String::from_str("source stride overflow")),
        ),
    };
    match row_bytes.checked_mul(crop_height) {
        Some(_) => {},
        None => return Err(
            SelectedImageBridgeError::InvalidFrame(String::from_str("crop byte length overflow")),
        ),
    }
    let ghost bytes = frame.bytes@;
    proof {
        if packed {
            let w = frame.width as int;
            let h = frame.height as int;
            assert(frame.bytes@.len() == w * h * 4);
            assert(w * h * 4 == h * (w * 4)) by (nonlinear_arith);
        }
    }
    let mut output: Vec<u8> = Vec::new();
    let mut row: usize = 0;
    while row < crop_height
        invariant
            bytes == frame.bytes@,
            packed == (frame.spec_is_tightly_packed_rgba() && crop.x + crop.width <= frame.width
                && crop.y + crop.height <= frame.height),
            packed ==> bytes.len() == frame.height * source_stride,
            bytes.len() <= usize::MAX,
            !crop.spec_is_empty(),
            crop.spec_right() <= frame.width,
            crop.spec_bottom() <= frame.height,
            source_stride == frame.width * 4,
            row_bytes == crop.width * 4,
            crop_x == crop.x,
            crop_y == crop.y,
            crop_height == crop.height,
            row <= crop_height,
            output@.len() == row * row_bytes,
            output@ == crop_rows(
                bytes,
                source_stride as nat,
                (crop_x * 4) as nat,
                crop_y as nat,
                row_bytes as nat,
                row as nat,
            ),
        decreases crop_height - row,
    {
        proof {
            if packed {
                let sr = crop_y + row;
                let st = source_stride as int;
                assert(sr + 1 <= frame.height);
                assert((sr + 1) * st <= frame.height * st) by (nonlinear_arith)
                    requires
                        sr + 1 <= frame.height,
                        st >= 0,
                ;
                assert((sr + 1) * st == sr * st + st) by (nonlinear_arith);
                assert(crop_x * 4 + row_bytes <= st);
                assert(sr * st + crop_x * 4 + row_bytes <= bytes.len());
            }
        }
        let source_row = match crop_y.checked_add(row) {
            Some(v) => v,
            None => return Err(
                SelectedImageBridgeError::InvalidFrame(String::from_str("crop row overflow")),
            ),
        };
        let start = match source_row.checked_mul(source_stride) {
            Some(offset) => match offset.checked_add(crop_x * 4) {
                Some(v) => v,
                None => return Err(
                    SelectedImageBridgeError::InvalidFrame(String::from_str("crop offset overflow")),
                ),
            },
            None => return Err(
                SelectedImageBridgeError::InvalidFrame(String::from_str("crop offset overflow")),
            ),
        };
        let end = match start.checked_add(row_bytes) {
            Some(v) => v,
            None => return Err(
                SelectedImageBridgeError::InvalidFrame(String::from_str("crop slice overflow")),
            ),
        };
        if end > frame.bytes.len() {
            proof {
                if packed {
                    let sr = source_row as int;
                    let st = source_stride as int;
                    assert(sr + 1 <= frame.height);
                    assert((sr + 1) * st <= frame.height * st) by (nonlinear_arith)
                        requires
                            sr + 1 <= frame.height,
                            st >= 0,
                    ;
                    assert((sr + 1) * st == sr * st + st) by (nonlinear_arith);
                    assert(crop_x * 4 + row_bytes <= st);
                }
            }
            return Err(
                SelectedImageBridgeError::InvalidFrame(String::from_str("crop slice is out of range")),
            );
        }
        let ghost before = output@;
        let mut i: usize = start;
        while i < end
            invariant
                bytes == frame.bytes@,
                start <= i <= end <= bytes.len(),
                output@ == before + bytes.subrange(start as int, i as int),
            decreases end - i,
        {
            output.push(frame.bytes[i]);
            i = i + 1;
            proof {
                assert(output@ =~= before + bytes.subrange(start as int, i as int));
            }
        }
        proof {
            assert(start as int == (crop_y as nat + row as nat) * (source_stride as nat) + (crop_x
                * 4) as nat);
            assert((row + 1) * row_bytes == row * row_bytes + row_bytes) by (nonlinear_arith);
        }
        row = row + 1;
    }
    proof {
        let cw = crop.width as int;
        let ch = crop.height as int;
        assert(ch * (cw * 4) == cw * ch * 4) by (nonlinear_arith);
    }
    Ok(output)
}

} // verus!

verus! {

// ---------------------------------------------------------------------------------------------
// Building selected images and bridge contracts.
/// The error for a selection that the clamp rejected: empty when either the selection
/// or the image has no area, outside the frame otherwise.
pub open spec fn spec_bridge_selection_error(selection: SelectionRect, bounds: ImageBounds) -> SelectedImageBridgeError {
    if !selection.spec_normalized().spec_is_valid() || bounds.spec_is_empty() {
        SelectedImageBridgeError::EmptySelection
    } else {
        SelectedImageBridgeError::SelectionOutsideFrame
    }
}

/// The readback of the clamped crop fits in memory and covers exactly the crop.
pub open spec fn readback_fits(clamped: ClampedSelectionRect, bounds: ImageBounds) -> bool {
    SelectedReadbackContract::spec_new(clamped, bounds) matches Some(readback)
        && readback.spec_is_selected_only()
}

/// `image` is the selected PNG of `clamped` within `bounds`, encoded from `rgba`.
pub open spec fn is_selected_png_of(
    image: SelectedImageContract,
    clamped: ClampedSelectionRect,
    bounds: ImageBounds,
    rgba: Seq<u8>,
) -> bool {
    &&& image.rect == clamped.requested
    &&& image.crop == clamped.crop
    &&& image.source_width == bounds.width
    &&& image.source_height == bounds.height
    &&& image.was_clamped == clamped.was_clamped
    &&& png_rgba8_encoding(rgba, clamped.crop.width, clamped.crop.height) == Ok::<
        Seq<u8>,
        Seq<char>,
    >(image.png_bytes@)
    &&& starts_with_png_signature(image.png_bytes@)
}

fn bridge_selection_error(selection: SelectionRect, bounds: ImageBounds) -> (r:
    SelectedImageBridgeError)
    ensures
        r == spec_bridge_selection_error(selection, bounds),
{
    if !selection.normalized().is_valid() || bounds.is_empty() {
        SelectedImageBridgeError::EmptySelection
    } else {
        SelectedImageBridgeError::SelectionOutsideFrame
    }
}

/// Builds the selected PNG from any readback source: the source must validate, the
/// selection must clamp to a non-empty crop whose readback fits, the source must yield
/// the crop's bytes, and the encoder must succeed.
pub fn build_selected_png_contract_from_source<S: SelectedRegionReadbackSource>(
    source: &S,
    selection: SelectionRect,
) -> (r: SelectedImageBridgeResult<SelectedImageContract>)
    ensures
        !source.spec_readback_is_valid() ==> r is Err,
        source.spec_readback_is_valid() && selection.spec_clamp_to(source.spec_bounds()) is None
            ==> r == Err::<SelectedImageContract, SelectedImageBridgeError>(
            spec_bridge_selection_error(selection, source.spec_bounds()),
        ),
        source.spec_readback_is_valid() && (selection.spec_clamp_to(source.spec_bounds()) matches Some(
            clamped,
        ) && !readback_fits(clamped, source.spec_bounds())) ==> r == Err::<
            SelectedImageContract,
            SelectedImageBridgeError,
        >(SelectedImageBridgeError::ReadbackContractOverflow),
        r matches Ok(image) ==> source.spec_readback_is_valid() && (selection.spec_clamp_to(
            source.spec_bounds(),
        ) matches Some(clamped) && readback_fits(clamped, source.spec_bounds())
            && is_selected_png_of(
            image,
            clamped,
            source.spec_bounds(),
            source.spec_selected_rgba(clamped.crop),
        )),
        source.spec_readback_is_valid() ==> match selection.spec_clamp_to(source.spec_bounds()) {
            Some(clamped) => readback_fits(clamped, source.spec_bounds()) && source.spec_can_read(
                clamped.crop,
            ) ==> match png_rgba8_encoding(
                source.spec_selected_rgba(clamped.crop),
                clamped.crop.width,
                clamped.crop.height,
            ) {
                Ok(_) => r is Ok,
                Err(text) => r matches Err(SelectedImageBridgeError::PngEncodeFailed(t)) && t@
                    == text,
            },
            None => true,
        },
{
    match source.validate_readback() {
        Ok(()) => {},
        Err(e) => return Err(e),
    }
    let bounds = source.bounds();
    let clamped = match selection.clamp_to(bounds) {
        Some(c) => c,
        None => return Err(bridge_selection_error(selection, bounds)),
    };
    let fits = match SelectedReadbackContract::new(clamped, bounds) {
        Some(readback) => readback.is_selected_only(),
        None => false,
    };
    if !fits {
        return Err(SelectedImageBridgeError::ReadbackContractOverflow);
    }
    let cropped_rgba = match source.read_selected_rgba(clamped.crop) {
        Ok(bytes) => bytes,
        Err(e) => return Err(e),
    };
    let png_bytes = match encode_rgba_png(
        cropped_rgba.as_slice(),
        clamped.crop.width,
        clamped.crop.height,
    ) {
        Ok(png) => png,
        Err(text) => return Err(SelectedImageBridgeError::PngEncodeFailed(text)),
    };
    Ok(SelectedImageContract::new(clamped, png_bytes, bounds))
}

/// Builds the selected PNG of a frame; on a tightly packed frame it fails only for a
/// selection that does not clamp to the frame, a readback too large for memory, or an
/// encoder error.
pub fn build_selected_png_contract(frame: &RgbaFrame, selection: SelectionRect) -> (r:
    SelectedImageBridgeResult<SelectedImageContract>)
    ensures
        frame.spec_validate() matches Err(e) ==> r matches Err(
            SelectedImageBridgeError::InvalidFrame(t),
        ) && t@ == e.spec_message(),
        frame.spec_validate() is Ok && selection.spec_clamp_to(frame.spec_bounds()) is None ==> r
            == Err::<SelectedImageContract, SelectedImageBridgeError>(
            spec_bridge_selection_error(selection, frame.spec_bounds()),
        ),
        frame.spec_validate() is Ok && (selection.spec_clamp_to(frame.spec_bounds()) matches Some(
            clamped,
        ) && !readback_fits(clamped, frame.spec_bounds())) ==> r == Err::<
            SelectedImageContract,
            SelectedImageBridgeError,
        >(SelectedImageBridgeError::ReadbackContractOverflow),
        frame.spec_validate() is Ok ==> match selection.spec_clamp_to(frame.spec_bounds()) {
            Some(clamped) => readback_fits(clamped, frame.spec_bounds()) ==> match png_rgba8_encoding(
                spec_cropped_rgba(*frame, clamped.crop),
                clamped.crop.width,
                clamped.crop.height,
            ) {
                Ok(_) => r matches Ok(image) && is_selected_png_of(
                    image,
                    clamped,
                    frame.spec_bounds(),
                    spec_cropped_rgba(*frame, clamped.crop),
                ),
                Err(text) => r matches Err(SelectedImageBridgeError::PngEncodeFailed(t)) && t@
                    == text,
            },
            None => true,
        },
{
    if let Err(error) = frame.validate() {
        return Err(SelectedImageBridgeError::InvalidFrame(error.to_string()));
    }
    proof {
        if frame.spec_validate() is Ok {
            if let Some(clamped) = selection.spec_clamp_to(frame.spec_bounds()) {
                assert(clamped.crop.x + clamped.crop.width <= frame.width);
                assert(clamped.crop.y + clamped.crop.height <= frame.height);
            }
        }
    }
    build_selected_png_contract_from_source(frame, selection)
}

/// The data URL of a PNG's base64 text.
pub open spec fn png_data_url(png_base64: Seq<char>) -> Seq<char> {
    PNG_DATA_URL_PREFIX@ + png_base64
}

/// Builds the bridge contract of an image action: the record action is refused before
/// any PNG work; otherwise the selected PNG is built and given its base64 and data URL.
pub fn build_selected_image_bridge_contract(
    action: OutputAction,
    frame: &RgbaFrame,
    selection: SelectionRect,
) -> (r: SelectedImageBridgeResult<SelectedImageBridgeContract>)
    ensures
        action.spec_bridge_target() is None ==> r == Err::<
            SelectedImageBridgeContract,
            SelectedImageBridgeError,
        >(SelectedImageBridgeError::UnsupportedAction(action)),
        r matches Ok(contract) ==> {
            &&& Some(contract.target) == action.spec_bridge_target()
            &&& contract.action == action
            &&& contract.format == OutputImageFormat::Png
            &&& contract.mime_type@ == PNG_MIME_TYPE@
            &&& contract.png_base64@ == base64_standard(contract.image.png_bytes@)
            &&& contract.data_url@ == png_data_url(contract.png_base64@)
            &&& frame.spec_validate() is Ok
            &&& selection.spec_clamp_to(frame.spec_bounds()) matches Some(clamped)
                && readback_fits(clamped, frame.spec_bounds()) && is_selected_png_of(
                contract.image,
                clamped,
                frame.spec_bounds(),
                spec_cropped_rgba(*frame, clamped.crop),
            )
        },
        frame.spec_validate() is Err ==> r is Err,
        action.spec_bridge_target() is Some ==> (frame.spec_validate() matches Err(e) ==> r matches Err(
            SelectedImageBridgeError::InvalidFrame(t),
        ) && t@ == e.spec_message()),
        action.spec_bridge_target() is Some && frame.spec_validate() is Ok ==> match selection.spec_clamp_to(
            frame.spec_bounds(),
        ) {
            None => r == Err::<SelectedImageBridgeContract, SelectedImageBridgeError>(
                spec_bridge_selection_error(selection, frame.spec_bounds()),
            ),
            Some(clamped) => if !readback_fits(clamped, frame.spec_bounds()) {
                r == Err::<SelectedImageBridgeContract, SelectedImageBridgeError>(
                    SelectedImageBridgeError::ReadbackContractOverflow,
                )
            } else {
                match png_rgba8_encoding(
                    spec_cropped_rgba(*frame, clamped.crop),
                    clamped.crop.width,
                    clamped.crop.height,
                ) {
                    Ok(png) => if base64_encoded_len(png.len()) <= usize::MAX {
                        r is Ok
                    } else {
                        r matches Err(SelectedImageBridgeError::PngEncodeFailed(t)) && t@
                            == PNG_TOO_LARGE_FOR_BASE64@
                    },
                    Err(text) => r matches Err(SelectedImageBridgeError::PngEncodeFailed(t)) && t@
                        == text,
                }
            },
        },
{
    let target = match action.bridge_target() {
        Some(t) => t,
        None => return Err(SelectedImageBridgeError::UnsupportedAction(action)),
    };
    let image = match build_selected_png_contract(frame, selection) {
        Ok(image) => image,
        Err(e) => return Err(e),
    };
    if !base64_len_fits(image.png_bytes.len()) {
        return Err(
            SelectedImageBridgeError::PngEncodeFailed(String::from_str(PNG_TOO_LARGE_FOR_BASE64)),
        );
    }
    let png_base64 = base64_standard_encode(image.png_bytes.as_slice());
    let mut data_url = String::from_str(PNG_DATA_URL_PREFIX);
    data_url.append(png_base64.as_str());
    Ok(
        SelectedImageBridgeContract {
            action,
            target,
            format: OutputImageFormat::Png,
            mime_type: String::from_str(PNG_MIME_TYPE),
            image,
            png_base64,
            data_url,
        },
    )
}

/// The clipboard-copy bridge contract of an already selected PNG: the copy action, the
/// clipboard target, and the PNG's base64 and data URL.
pub fn clipboard_copy_contract_for_png(image: SelectedImageContract) -> (r: SelectedImageBridgeContract)
    requires
        base64_encoded_len(image.png_bytes@.len()) <= usize::MAX,
    ensures
        r.action == OutputAction::Copy,
        r.target == OutputBridgeTarget::Clipboard,
        r.format == OutputImageFormat::Png,
        r.mime_type@ == PNG_MIME_TYPE@,
        r.image == image,
        r.png_base64@ == base64_standard(image.png_bytes@),
        r.data_url@ == png_data_url(r.png_base64@),
{
    let png_base64 = base64_standard_encode(image.png_bytes.as_slice());
    let mut data_url = String::from_str(PNG_DATA_URL_PREFIX);
    data_url.append(png_base64.as_str());
    SelectedImageBridgeContract {
        action: OutputAction::Copy,
        target: OutputBridgeTarget::Clipboard,
        format: OutputImageFormat::Png,
        mime_type: String::from_str(PNG_MIME_TYPE),
        image,
        png_base64,
        data_url,
    }
}

/// Whether the padded base64 of `len` bytes has a length that fits in `usize`.
fn base64_len_fits(len: usize) -> (r: bool)
    ensures
        r == (base64_encoded_len(len as nat) <= usize::MAX),
{
    let groups: usize = if len % 3 == 0 {
        len / 3
    } else {
        len / 3 + 1
    };
    assert(groups == (len as nat + 2) / 3);
    groups <= usize::MAX / 4
}

/// Builds the output bridge contract of an action: the record action is refused before
/// any PNG work.
pub fn build_output_bridge_contract(
    action: OutputAction,
    frame: &RgbaFrame,
    selection: SelectionRect,
) -> (r: SelectedImageBridgeResult<OutputBridgeContract>)
    ensures
        action.spec_bridge_target() is None ==> r == Err::<
            OutputBridgeContract,
            SelectedImageBridgeError,
        >(SelectedImageBridgeError::UnsupportedAction(action)),
        r matches Ok(contract) ==> {
            &&& contract.action == action
            &&& Some(contract.target) == action.spec_bridge_target()
            &&& frame.spec_validate() is Ok
            &&& selection.spec_clamp_to(frame.spec_bounds()) matches Some(clamped)
                && readback_fits(clamped, frame.spec_bounds()) && is_selected_png_of(
                contract.image,
                clamped,
                frame.spec_bounds(),
                spec_cropped_rgba(*frame, clamped.crop),
            )
        },
        frame.spec_validate() is Err ==> r is Err,
        action.spec_bridge_target() is Some ==> (frame.spec_validate() matches Err(e) ==> r matches Err(
            SelectedImageBridgeError::InvalidFrame(t),
        ) && t@ == e.spec_message()),
        action.spec_bridge_target() is Some && frame.spec_validate() is Ok ==> match selection.spec_clamp_to(
            frame.spec_bounds(),
        ) {
            None => r == Err::<OutputBridgeContract, SelectedImageBridgeError>(
                spec_bridge_selection_error(selection, frame.spec_bounds()),
            ),
            Some(clamped) => if !readback_fits(clamped, frame.spec_bounds()) {
                r == Err::<OutputBridgeContract, SelectedImageBridgeError>(
                    SelectedImageBridgeError::ReadbackContractOverflow,
                )
            } else {
                match png_rgba8_encoding(
                    spec_cropped_rgba(*frame, clamped.crop),
                    clamped.crop.width,
                    clamped.crop.height,
                ) {
                    Ok(_) => r is Ok,
                    Err(text) => r matches Err(SelectedImageBridgeError::PngEncodeFailed(t)) && t@
                        == text,
                }
            },
        },
{
    if action.bridge_target().is_none() {
        return Err(SelectedImageBridgeError::UnsupportedAction(action));
    }
    let image = match build_selected_png_contract(frame, selection) {
        Ok(image) => image,
        Err(e) => return Err(e),
    };
    match OutputBridgeContract::new(action, image) {
        Some(contract) => Ok(contract),
        None => Err(SelectedImageBridgeError::UnsupportedAction(action)),
    }
}

pub fn describe_selected_image_bridge(contract: &SelectedImageBridgeContract) -> (r:
    SelectedImageBridgeDescription)
    ensures
        contract.spec_describes(r),
{
    contract.description()
}

pub fn diagnose_selected_image_bridge(contract: &SelectedImageBridgeContract) -> (r:
    SelectedImageBridgeDiagnostics)
    requires
        base64_encoded_len(contract.image.png_bytes@.len()) <= usize::MAX,
    ensures
        contract.spec_describes(r.description),
        r.png_signature_valid == starts_with_png_signature(contract.image.png_bytes@),
        r.data_url_prefix_valid == seq_starts_with(contract.data_url@, PNG_DATA_URL_PREFIX@),
        r.base64_matches_png == (base64_standard(contract.image.png_bytes@) == contract.png_base64@),
        r.selected_only_png == contract.image.spec_is_selected_only_png(),
{
    contract.diagnostics()
}

fn copy_image(image: &SelectedImageContract) -> (r: SelectedImageContract)
    ensures
        r.rect == image.rect,
        r.crop == image.crop,
        r.png_bytes@ == image.png_bytes@,
        r.source_width == image.source_width,
        r.source_height == image.source_height,
        r.was_clamped == image.was_clamped,
{
    let mut png: Vec<u8> = Vec::new();
    let mut i: usize = 0;
    while i < image.png_bytes.len()
        invariant
            i <= image.png_bytes@.len(),
            png@ == image.png_bytes@.subrange(0, i as int),
        decreases image.png_bytes@.len() - i,
    {
        png.push(image.png_bytes[i]);
        i = i + 1;
        proof {
            assert(png@ =~= image.png_bytes@.subrange(0, i as int));
        }
    }
    proof {
        assert(png@ =~= image.png_bytes@);
    }
    SelectedImageContract {
        rect: image.rect,
        crop: image.crop,
        png_bytes: png,
        source_width: image.source_width,
        source_height: image.source_height,
        was_clamped: image.was_clamped,
    }
}

/// The dry-run diagnostic of one action on an image; actions without an image bridge
/// are refused.
pub open spec fn is_dry_run_diagnostic_of(
    d: SelectedOutputBridgeDryRunDiagnostic,
    action: OutputAction,
    image: SelectedImageContract,
) -> bool {
    &&& d.action == action
    &&& Some(d.target) == action.spec_bridge_target()
    &&& d.format == OutputImageFormat::Png
    &&& d.readback == image.spec_readback_contract()
    &&& d.png_byte_len == image.png_bytes@.len()
    &&& d.target_matches_action
    &&& d.png_signature_valid == starts_with_png_signature(image.png_bytes@)
    &&& d.selected_only_png == image.spec_is_selected_only_png()
}

pub fn diagnose_selected_output_bridge_contract(
    action: OutputAction,
    image: &SelectedImageContract,
) -> (r: SelectedImageBridgeResult<SelectedOutputBridgeDryRunDiagnostic>)
    ensures
        action.spec_bridge_target() is None ==> r == Err::<
            SelectedOutputBridgeDryRunDiagnostic,
            SelectedImageBridgeError,
        >(SelectedImageBridgeError::UnsupportedAction(action)),
        action.spec_bridge_target() is Some ==> (r matches Ok(d) && is_dry_run_diagnostic_of(
            d,
            action,
            *image,
        )),
{
    let target = match action.bridge_target() {
        Some(t) => t,
        None => return Err(SelectedImageBridgeError::UnsupportedAction(action)),
    };
    let contract = match OutputBridgeContract::new(action, copy_image(image)) {
        Some(c) => c,
        None => return Err(SelectedImageBridgeError::UnsupportedAction(action)),
    };
    Ok(
        SelectedOutputBridgeDryRunDiagnostic {
            action,
            target: contract.target,
            format: image.image_format(),
            readback: image.readback_contract(),
            png_byte_len: image.byte_len(),
            target_matches_action: contract.target == target,
            png_signature_valid: has_png_signature(&image.png_bytes),
            selected_only_png: image.is_selected_only_png(),
        },
    )
}

/// The evidence of a selected PNG, described as a clipboard copy without encodings.
pub open spec fn is_png_evidence_of(d: SelectedImageBridgeDescription, image: SelectedImageContract) -> bool {
    &&& d.action == OutputAction::Copy
    &&& d.target == OutputBridgeTarget::Clipboard
    &&& d.format == OutputImageFormat::Png
    &&& d.mime_type@ == PNG_MIME_TYPE@
    &&& d.rect == image.rect
    &&& d.crop == image.crop
    &&& d.source_width == image.source_width
    &&& d.source_height == image.source_height
    &&& d.png_byte_len == image.png_bytes@.len()
    &&& d.base64_len == 0
    &&& d.data_url_len == 0
    &&& d.selected_only == image.spec_is_selected_only_png()
    &&& d.readback == image.spec_readback_contract()
    &&& d.was_clamped == image.was_clamped
}

pub fn describe_selected_png_evidence(image: &SelectedImageContract) -> (r:
    SelectedImageBridgeDescription)
    ensures
        is_png_evidence_of(r, *image),
{
    SelectedImageBridgeDescription {
        action: OutputAction::Copy,
        target: OutputBridgeTarget::Clipboard,
        format: image.image_format(),
        mime_type: String::from_str(PNG_MIME_TYPE),
        rect: image.rect,
        crop: image.crop,
        source_width: image.source_width,
        source_height: image.source_height,
        png_byte_len: image.byte_len(),
        base64_len: 0,
        data_url_len: 0,
        selected_only: image.is_selected_only_png(),
        readback: image.readback_contract(),
        was_clamped: image.was_clamped,
    }
}

/// Dry-runs every image-bridge action on the image, in order.
pub fn dry_run_selected_output_bridge_contracts(image: &SelectedImageContract) -> (r:
    SelectedImageBridgeResult<SelectedOutputBridgeDryRunReport>)
    ensures
        r matches Ok(report) && is_png_evidence_of(report.image, *image)
            && report.diagnostics@.len() == 4 && forall|i: int|
            0 <= i < 4 ==> is_dry_run_diagnostic_of(
                #[trigger] report.diagnostics@[i],
                image_bridge_actions()[i],
                *image,
            ),
{
    let actions = image_bridge_actions_exec();
    let mut diagnostics: Vec<SelectedOutputBridgeDryRunDiagnostic> = Vec::new();
    let mut i: usize = 0;
    while i < actions.len()
        invariant
            actions@ == image_bridge_actions(),
            i <= actions@.len(),
            diagnostics@.len() == i,
            forall|j: int|
                0 <= j < i ==> is_dry_run_diagnostic_of(
                    #[trigger] diagnostics@[j],
                    image_bridge_actions()[j],
                    *image,
                ),
        decreases actions@.len() - i,
    {
        let action = actions[i];
        proof {
            assert(action.spec_bridge_target() is Some);
        }
        match diagnose_selected_output_bridge_contract(action, image) {
            Ok(d) => diagnostics.push(d),
            Err(e) => return Err(e),
        }
        i = i + 1;
    }
    Ok(SelectedOutputBridgeDryRunReport { image: describe_selected_png_evidence(image), diagnostics })
}

/// Builds the selected PNG from a source and dry-runs every image-bridge action on it.
pub fn dry_run_selected_output_bridges_from_source<S: SelectedRegionReadbackSource>(
    source: &S,
    selection: SelectionRect,
) -> (r: SelectedImageBridgeResult<SelectedOutputBridgeDryRunReport>)
    ensures
        r matches Ok(report) ==> exists|image: SelectedImageContract|
            {
                &&& selection.spec_clamp_to(source.spec_bounds()) matches Some(clamped)
                    && readback_fits(clamped, source.spec_bounds()) && is_selected_png_of(
                    image,
                    clamped,
                    source.spec_bounds(),
                    source.spec_selected_rgba(clamped.crop),
                )
                &&& is_png_evidence_of(report.image, image)
                &&& report.diagnostics@.len() == 4
                &&& forall|i: int|
                    0 <= i < 4 ==> is_dry_run_diagnostic_of(
                        #[trigger] report.diagnostics@[i],
                        image_bridge_actions()[i],
                        image,
                    )
            },
        !source.spec_readback_is_valid() ==> r is Err,
        source.spec_readback_is_valid() && selection.spec_clamp_to(source.spec_bounds()) is None
            ==> r == Err::<SelectedOutputBridgeDryRunReport, SelectedImageBridgeError>(
            spec_bridge_selection_error(selection, source.spec_bounds()),
        ),
        source.spec_readback_is_valid() ==> match selection.spec_clamp_to(source.spec_bounds()) {
            Some(clamped) => if !readback_fits(clamped, source.spec_bounds()) {
                r == Err::<SelectedOutputBridgeDryRunReport, SelectedImageBridgeError>(
                    SelectedImageBridgeError::ReadbackContractOverflow,
                )
            } else {
                source.spec_can_read(clamped.crop) ==> match png_rgba8_encoding(
                    source.spec_selected_rgba(clamped.crop),
                    clamped.crop.width,
                    clamped.crop.height,
                ) {
                    Ok(png) => r matches Ok(report) && report.image.png_byte_len == png.len()
                        && report.image.selected_only && report.diagnostics@.len() == 4,
                    Err(text) => r matches Err(SelectedImageBridgeError::PngEncodeFailed(t)) && t@
                        == text,
                }
            },
            None => true,
        },
{
    let image = match build_selected_png_contract_from_source(source, selection) {
        Ok(image) => image,
        Err(e) => return Err(e),
    };
    proof {
        let clamped = selection.spec_clamp_to(source.spec_bounds())->0;
        built_images_are_selected_only_pngs(
            image,
            clamped,
            source.spec_bounds(),
            source.spec_selected_rgba(clamped.crop),
        );
    }
    dry_run_selected_output_bridge_contracts(&image)
}

/// A selected PNG built from a clamped crop whose readback fits is selected-only: its
/// readback covers exactly the crop and its bytes begin with the PNG signature.
pub proof fn built_images_are_selected_only_pngs(
    image: SelectedImageContract,
    clamped: ClampedSelectionRect,
    bounds: ImageBounds,
    rgba: Seq<u8>,
)
    requires
        readback_fits(clamped, bounds),
        is_selected_png_of(image, clamped, bounds, rgba),
    ensures
        image.spec_is_selected_only_png(),
{
    assert(image.spec_clamped() == clamped);
    assert(image.spec_bounds() == bounds);
}

} // verus!
