//! Selection rectangles, crops and the selected-image contracts handed to output actions.
use vstd::prelude::*;

use crate::numeric::{clamp_i32, clamp_i64, clamp_int, saturating_abs_i32, saturating_add_i32};

verus! {

/// A desktop selection; width and height may be negative while a drag is in progress.
#[derive(Debug, Clone, Copy, PartialEq, Eq, Structural)]
pub struct SelectionRect {
    pub x: i32,
    pub y: i32,
    pub width: i32,
    pub height: i32,
}

/// The PNG file signature.
pub open spec fn png_signature() -> Seq<u8> {
    seq![137u8, 80u8, 78u8, 71u8, 13u8, 10u8, 26u8, 10u8]
}

/// `bytes` begins with the PNG signature.
pub open spec fn starts_with_png_signature(bytes: Seq<u8>) -> bool {
    bytes.len() >= 8 && bytes.subrange(0, 8) == png_signature()
}

impl SelectionRect {
    pub open spec fn spec_new(x: i32, y: i32, width: i32, height: i32) -> SelectionRect {
        SelectionRect { x, y, width, height }
    }

    pub open spec fn spec_is_valid(self) -> bool {
        self.width > 0 && self.height > 0
    }

    pub open spec fn spec_right(self) -> int {
        self.x + self.width
    }

    /// The point `(px, py)` lies in the rectangle, right and bottom edges excluded.
    pub open spec fn spec_covers(self, px: int, py: int) -> bool {
        self.x <= px < self.x + self.width && self.y <= py < self.y + self.height
    }

    pub open spec fn spec_bottom(self) -> int {
        self.y + self.height
    }

    /// A negative extent is flipped: the origin moves by the extent and the extent
    /// becomes its absolute value, both saturating at the `i32` range.
    pub open spec fn spec_normalized(self) -> SelectionRect {
        SelectionRect {
            x: if self.width < 0 { clamp_i32(self.x + self.width) as i32 } else { self.x },
            y: if self.height < 0 { clamp_i32(self.y + self.height) as i32 } else { self.y },
            width: if self.width < 0 { clamp_i32(-self.width) as i32 } else { self.width },
            height: if self.height < 0 { clamp_i32(-self.height) as i32 } else { self.height },
        }
    }

    /// The requested rectangle intersected with the image, or `None` when the image is
    /// empty, the normalized request has no area, or nothing of it lies inside the image.
    pub open spec fn spec_clamp_to(self, bounds: ImageBounds) -> Option<ClampedSelectionRect> {
        let requested = self.spec_normalized();
        let left = clamp_int(requested.x as int, 0, bounds.width as int);
        let top = clamp_int(requested.y as int, 0, bounds.height as int);
        let right = clamp_int(requested.spec_right(), 0, bounds.width as int);
        let bottom = clamp_int(requested.spec_bottom(), 0, bounds.height as int);
        if bounds.spec_is_empty() || !requested.spec_is_valid() || right <= left || bottom <= top {
            None
        } else {
            let crop = CropRect {
                x: left as u32,
                y: top as u32,
                width: (right - left) as u32,
                height: (bottom - top) as u32,
            };
            Some(
                ClampedSelectionRect {
                    requested,
                    crop,
                    was_clamped: crop.spec_as_selection_rect() != requested,
                },
            )
        }
    }

    pub fn new(x: i32, y: i32, width: i32, height: i32) -> (r: Self)
        ensures
            r == Self::spec_new(x, y, width, height),
    {
        Self { x, y, width, height }
    }

    pub fn is_valid(self) -> (r: bool)
        ensures
            r == self.spec_is_valid(),
    {
        self.width > 0 && self.height > 0
    }

    pub fn right(self) -> (r: i64)
        ensures
            r == self.spec_right(),
    {
        self.x as i64 + self.width as i64
    }

    pub fn bottom(self) -> (r: i64)
        ensures
            r == self.spec_bottom(),
    {
        self.y as i64 + self.height as i64
    }

    pub fn normalized(self) -> (r: Self)
        ensures
            r == self.spec_normalized(),
    {
        let mut x = self.x;
        let mut y = self.y;
        let mut width = self.width;
        let mut height = self.height;
        if width < 0 {
            x = saturating_add_i32(x, width);
            width = saturating_abs_i32(width);
        }
        if height < 0 {
            y = saturating_add_i32(y, height);
            height = saturating_abs_i32(height);
        }
        Self { x, y, width, height }
    }

    pub fn clamp_to(self, bounds: ImageBounds) -> (r: Option<ClampedSelectionRect>)
        ensures
            r == self.spec_clamp_to(bounds),
    {
        if bounds.is_empty() {
            return None;
        }
        let requested = self.normalized();
        if !requested.is_valid() {
            return None;
        }
        let left = clamp_i64(requested.x as i64, 0, bounds.width as i64);
        let top = clamp_i64(requested.y as i64, 0, bounds.height as i64);
        let right = clamp_i64(requested.right(), 0, bounds.width as i64);
        let bottom = clamp_i64(requested.bottom(), 0, bounds.height as i64);
        if right <= left || bottom <= top {
            return None;
        }
        let crop = CropRect {
            x: left as u32,
            y: top as u32,
            width: (right - left) as u32,
            height: (bottom - top) as u32,
        };
        let as_rect = crop.as_selection_rect();
        Some(ClampedSelectionRect { requested, crop, was_clamped: as_rect != requested })
    }
}

/// The size of an image in pixels.
#[derive(Debug, Clone, Copy, PartialEq, Eq, Structural)]
pub struct ImageBounds {
    pub width: u32,
    pub height: u32,
}

impl ImageBounds {
    pub open spec fn spec_is_empty(self) -> bool {
        self.width == 0 || self.height == 0
    }

    pub fn new(width: u32, height: u32) -> (r: Self)
        ensures
            r == (ImageBounds { width, height }),
    {
        Self { width, height }
    }

    pub fn is_empty(self) -> (r: bool)
        ensures
            r == self.spec_is_empty(),
    {
        self.width == 0 || self.height == 0
    }
}

/// A pixel rectangle inside an image.
#[derive(Debug, Clone, Copy, PartialEq, Eq, Structural)]
pub struct CropRect {
    pub x: u32,
    pub y: u32,
    pub width: u32,
    pub height: u32,
}

/// Number of bytes of a tightly packed RGBA region, when it fits in `usize`.
pub open spec fn rgba_len_for(width: int, height: int) -> Option<usize> {
    if width * height * 4 <= usize::MAX {
        Some((width * height * 4) as usize)
    } else {
        None
    }
}

impl CropRect {
    pub open spec fn spec_is_empty(self) -> bool {
        self.width == 0 || self.height == 0
    }

    pub open spec fn spec_right(self) -> u32 {
        if self.x + self.width > u32::MAX { u32::MAX } else { (self.x + self.width) as u32 }
    }

    pub open spec fn spec_bottom(self) -> u32 {
        if self.y + self.height > u32::MAX { u32::MAX } else { (self.y + self.height) as u32 }
    }

    pub open spec fn spec_rgba_byte_len(self) -> Option<usize> {
        rgba_len_for(self.width as int, self.height as int)
    }

    /// Each coordinate saturated to the `i32` range.
    /// The pixel `(px, py)` lies in the crop.
    pub open spec fn spec_covers(self, px: int, py: int) -> bool {
        self.x <= px < self.x + self.width && self.y <= py < self.y + self.height
    }

    pub open spec fn spec_as_selection_rect(self) -> SelectionRect {
        SelectionRect {
            x: if self.x > i32::MAX { i32::MAX } else { self.x as i32 },
            y: if self.y > i32::MAX { i32::MAX } else { self.y as i32 },
            width: if self.width > i32::MAX { i32::MAX } else { self.width as i32 },
            height: if self.height > i32::MAX { i32::MAX } else { self.height as i32 },
        }
    }

    pub fn is_empty(self) -> (r: bool)
        ensures
            r == self.spec_is_empty(),
    {
        self.width == 0 || self.height == 0
    }

    pub fn right(self) -> (r: u32)
        ensures
            r == self.spec_right(),
    {
        self.x.saturating_add(self.width)
    }

    pub fn bottom(self) -> (r: u32)
        ensures
            r == self.spec_bottom(),
    {
        self.y.saturating_add(self.height)
    }

    pub fn rgba_byte_len(self) -> (r: Option<usize>)
        ensures
            r == self.spec_rgba_byte_len(),
    {
        checked_rgba_len(self.width, self.height)
    }

    pub fn as_selection_rect(self) -> (r: SelectionRect)
        ensures
            r == self.spec_as_selection_rect(),
    {
        SelectionRect {
            x: if self.x > i32::MAX as u32 { i32::MAX } else { self.x as i32 },
            y: if self.y > i32::MAX as u32 { i32::MAX } else { self.y as i32 },
            width: if self.width > i32::MAX as u32 { i32::MAX } else { self.width as i32 },
            height: if self.height > i32::MAX as u32 { i32::MAX } else { self.height as i32 },
        }
    }
}

/// `width * height * 4` when it fits in `usize`.
pub fn checked_rgba_len(width: u32, height: u32) -> (r: Option<usize>)
    ensures
        r == rgba_len_for(width as int, height as int),
{
    let w = width as usize;
    let h = height as usize;
    match w.checked_mul(h) {
        Some(pixels) => match pixels.checked_mul(4) {
            Some(len) => Some(len),
            None => None,
        },
        None => {
            proof {
                assert(w * h * 4 >= w * h) by (nonlinear_arith)
                    requires
                        w >= 0,
                        h >= 0,
                ;
            }
            None
        },
    }
}

/// A clamped selection: the normalized request and the crop that lies inside the image.
#[derive(Debug, Clone, Copy, PartialEq, Eq, Structural)]
pub struct ClampedSelectionRect {
    pub requested: SelectionRect,
    pub crop: CropRect,
    pub was_clamped: bool,
}

/// What the user asked to do with the selection.
#[derive(Debug, Clone, Copy, PartialEq, Eq, Structural)]
pub enum OutputAction {
    Copy,
    SaveAs,
    Ocr,
    Translate,
    Record,
}

/// Where an output action delivers the selected image.
#[derive(Debug, Clone, Copy, PartialEq, Eq, Structural)]
pub enum OutputBridgeTarget {
    Clipboard,
    File,
    Ocr,
    Translation,
}

/// The encoding of a selected image.
#[derive(Debug, Clone, Copy, PartialEq, Eq, Structural)]
pub enum OutputImageFormat {
    Png,
}

impl OutputAction {
    /// Recording has no image bridge; every other action has exactly one target.
    pub open spec fn spec_bridge_target(self) -> Option<OutputBridgeTarget> {
        match self {
            OutputAction::Copy => Some(OutputBridgeTarget::Clipboard),
            OutputAction::SaveAs => Some(OutputBridgeTarget::File),
            OutputAction::Ocr => Some(OutputBridgeTarget::Ocr),
            OutputAction::Translate => Some(OutputBridgeTarget::Translation),
            OutputAction::Record => None,
        }
    }

    pub fn bridge_target(self) -> (r: Option<OutputBridgeTarget>)
        ensures
            r == self.spec_bridge_target(),
    {
        match self {
            OutputAction::Copy => Some(OutputBridgeTarget::Clipboard),
            OutputAction::SaveAs => Some(OutputBridgeTarget::File),
            OutputAction::Ocr => Some(OutputBridgeTarget::Ocr),
            OutputAction::Translate => Some(OutputBridgeTarget::Translation),
            OutputAction::Record => None,
        }
    }
}

/// A PNG of the selected region together with where it came from.
#[derive(Debug, Clone, PartialEq, Eq)]
pub struct SelectedImageContract {
    pub rect: SelectionRect,
    pub crop: CropRect,
    pub png_bytes: Vec<u8>,
    pub source_width: u32,
    pub source_height: u32,
    pub was_clamped: bool,
}

/// The readback of the selected region only: its RGBA byte length and provenance.
#[derive(Debug, Clone, Copy, PartialEq, Eq, Structural)]
pub struct SelectedReadbackContract {
    pub rect: SelectionRect,
    pub crop: CropRect,
    pub source_width: u32,
    pub source_height: u32,
    pub rgba_byte_len: usize,
    pub selected_only: bool,
    pub was_clamped: bool,
}

impl SelectedReadbackContract {
    pub open spec fn spec_new(clamped: ClampedSelectionRect, bounds: ImageBounds) -> Option<
        SelectedReadbackContract,
    > {
        match clamped.crop.spec_rgba_byte_len() {
            Some(len) => Some(
                SelectedReadbackContract {
                    rect: clamped.requested,
                    crop: clamped.crop,
                    source_width: bounds.width,
                    source_height: bounds.height,
                    rgba_byte_len: len,
                    selected_only: true,
                    was_clamped: clamped.was_clamped,
                },
            ),
            None => None,
        }
    }

    pub open spec fn spec_is_selected_only(self) -> bool {
        &&& self.selected_only
        &&& !self.crop.spec_is_empty()
        &&& self.rgba_byte_len == match self.crop.spec_rgba_byte_len() {
            Some(len) => len,
            None => 0usize,
        }
    }

    pub fn new(clamped: ClampedSelectionRect, bounds: ImageBounds) -> (r: Option<Self>)
        ensures
            r == Self::spec_new(clamped, bounds),
    {
        match clamped.crop.rgba_byte_len() {
            Some(len) => Some(
                Self {
                    rect: clamped.requested,
                    crop: clamped.crop,
                    source_width: bounds.width,
                    source_height: bounds.height,
                    rgba_byte_len: len,
                    selected_only: true,
                    was_clamped: clamped.was_clamped,
                },
            ),
            None => None,
        }
    }

    pub fn bounds(self) -> (r: ImageBounds)
        ensures
            r == (ImageBounds { width: self.source_width, height: self.source_height }),
    {
        ImageBounds { width: self.source_width, height: self.source_height }
    }

    pub fn is_selected_only(self) -> (r: bool)
        ensures
            r == self.spec_is_selected_only(),
    {
        let expected = match self.crop.rgba_byte_len() {
            Some(len) => len,
            None => 0,
        };
        self.selected_only && !self.crop.is_empty() && self.rgba_byte_len == expected
    }
}

impl SelectedImageContract {
    pub open spec fn spec_bounds(&self) -> ImageBounds {
        ImageBounds { width: self.source_width, height: self.source_height }
    }

    pub open spec fn spec_is_empty(&self) -> bool {
        self.png_bytes@.len() == 0 || self.crop.spec_is_empty()
    }

    pub open spec fn spec_clamped(&self) -> ClampedSelectionRect {
        ClampedSelectionRect {
            requested: self.rect,
            crop: self.crop,
            was_clamped: self.was_clamped,
        }
    }

    pub open spec fn spec_readback_contract(&self) -> Option<SelectedReadbackContract> {
        SelectedReadbackContract::spec_new(self.spec_clamped(), self.spec_bounds())
    }

    /// The image is a PNG whose readback covers exactly the (non-empty) crop.
    pub open spec fn spec_is_selected_only_png(&self) -> bool {
        &&& match self.spec_readback_contract() {
            Some(readback) => readback.spec_is_selected_only(),
            None => false,
        }
        &&& starts_with_png_signature(self.png_bytes@)
    }

    pub fn new(clamped: ClampedSelectionRect, png_bytes: Vec<u8>, bounds: ImageBounds) -> (r:
        Self)
        ensures
            r.rect == clamped.requested,
            r.crop == clamped.crop,
            r.png_bytes@ == png_bytes@,
            r.source_width == bounds.width,
            r.source_height == bounds.height,
            r.was_clamped == clamped.was_clamped,
    {
        Self {
            rect: clamped.requested,
            crop: clamped.crop,
            png_bytes,
            source_width: bounds.width,
            source_height: bounds.height,
            was_clamped: clamped.was_clamped,
        }
    }

    pub fn byte_len(&self) -> (r: usize)
        ensures
            r == self.png_bytes@.len(),
    {
        self.png_bytes.len()
    }

    pub fn bounds(&self) -> (r: ImageBounds)
        ensures
            r == self.spec_bounds(),
    {
        ImageBounds { width: self.source_width, height: self.source_height }
    }

    pub fn image_format(&self) -> (r: OutputImageFormat)
        ensures
            r == OutputImageFormat::Png,
    {
        OutputImageFormat::Png
    }

    pub fn is_empty(&self) -> (r: bool)
        ensures
            r == self.spec_is_empty(),
    {
        self.png_bytes.len() == 0 || self.crop.is_empty()
    }

    pub fn readback_contract(&self) -> (r: Option<SelectedReadbackContract>)
        ensures
            r == self.spec_readback_contract(),
    {
        SelectedReadbackContract::new(
            ClampedSelectionRect {
                requested: self.rect,
                crop: self.crop,
                was_clamped: self.was_clamped,
            },
            self.bounds(),
        )
    }

    pub fn is_selected_only_png(&self) -> (r: bool)
        ensures
            r == self.spec_is_selected_only_png(),
    {
        let readback_ok = match self.readback_contract() {
            Some(readback) => readback.is_selected_only(),
            None => false,
        };
        readback_ok && has_png_signature(&self.png_bytes)
    }
}

/// Whether `bytes` begins with the PNG signature.
pub fn has_png_signature(bytes: &Vec<u8>) -> (r: bool)
    ensures
        r == starts_with_png_signature(bytes@),
{
    if bytes.len() < 8 {
        return false;
    }
    let ok = bytes[0] == 137u8 && bytes[1] == 80u8 && bytes[2] == 78u8 && bytes[3] == 71u8
        && bytes[4] == 13u8 && bytes[5] == 10u8 && bytes[6] == 26u8 && bytes[7] == 10u8;
    proof {
        if ok {
            assert(bytes@.subrange(0, 8) =~= png_signature());
        } else {
            assert(bytes@.subrange(0, 8) != png_signature()) by {
                let s = bytes@.subrange(0, 8);
                if s == png_signature() {
                    assert(s[0] == bytes@[0]);
                    assert(s[1] == bytes@[1]);
                    assert(s[2] == bytes@[2]);
                    assert(s[3] == bytes@[3]);
                    assert(s[4] == bytes@[4]);
                    assert(s[5] == bytes@[5]);
                    assert(s[6] == bytes@[6]);
                    assert(s[7] == bytes@[7]);
                }
            }
        }
    }
    ok
}

/// A selected image bound to an output action and the target that action delivers to.
#[derive(Debug, Clone, PartialEq, Eq)]
pub struct OutputBridgeContract {
    pub action: OutputAction,
    pub target: OutputBridgeTarget,
    pub image: SelectedImageContract,
}

impl OutputBridgeContract {
    pub fn new(action: OutputAction, image: SelectedImageContract) -> (r: Option<Self>)
        ensures
            r is Some <==> action.spec_bridge_target() is Some,
            r matches Some(c) ==> c.action == action && Some(c.target)
                == action.spec_bridge_target() && c.image == image,
    {
        match action.bridge_target() {
            Some(target) => Some(Self { action, target, image }),
            None => None,
        }
    }
}


/// The crop of a clamped selection is exactly the part of the normalized selection that
/// lies inside the image: its edges are the selection's edges cut at the image's edges, a
/// pixel of the image is in the crop exactly when it is in the selection, and a crop is
/// given exactly when that part is not empty.
pub proof fn clamped_crop_is_selection_inside_image(selection: SelectionRect, bounds: ImageBounds)
    ensures
        ({
            let s = selection.spec_normalized();
            let left: int = if s.x >= 0 { s.x as int } else { 0 };
            let top: int = if s.y >= 0 { s.y as int } else { 0 };
            let right: int = if s.spec_right() <= bounds.width { s.spec_right() } else { bounds.width as int };
            let bottom: int = if s.spec_bottom() <= bounds.height { s.spec_bottom() } else { bounds.height as int };
            &&& (selection.spec_clamp_to(bounds) is Some <==> (s.width > 0 && s.height > 0
                && bounds.width > 0 && bounds.height > 0 && left < right && top < bottom))
            &&& (selection.spec_clamp_to(bounds) matches Some(c) ==> {
                &&& c.requested == s
                &&& c.crop.x == left && c.crop.x + c.crop.width == right
                &&& c.crop.y == top && c.crop.y + c.crop.height == bottom
                &&& forall|px: int, py: int|
                    0 <= px < bounds.width && 0 <= py < bounds.height ==> (
                    #[trigger] c.crop.spec_covers(px, py) <==> s.spec_covers(px, py))
            })
        }),
{
}

} // verus!
