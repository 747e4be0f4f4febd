//! Reading a mapped DXGI staging texture back into tightly packed RGBA bytes.
use vstd::prelude::*;

use crate::d3d11_frame::{
    D3d11FrameContractError, D3d11FrameSource, D3d11StagingReadbackMetadata, D3d11TextureFrame,
    D3d11TextureFrameFormat, D3d11TextureFrameMetadata,
};
use crate::dxgi_texture::{dxgi_format_text, dxgi_frame_format, spec_dxgi_format_text, spec_dxgi_frame_format};
use crate::output::{CropRect, ImageBounds};
use crate::selected_image_bridge::SelectedImageBridgeError;
use crate::text::{decimal, push_u64};

verus! {

/// The frame format of a DXGI format code, or the unsupported-format error naming it.
pub open spec fn spec_dxgi_texture_format(code: i32) -> Result<D3d11TextureFrameFormat, Seq<char>> {
    match spec_dxgi_frame_format(code) {
        Some(format) => Ok(format),
        None => Err(spec_dxgi_format_text(code)),
    }
}

pub fn dxgi_texture_format(code: i32) -> (r: Result<D3d11TextureFrameFormat, D3d11FrameContractError>)
    ensures
        match spec_dxgi_texture_format(code) {
            Ok(format) => r == Ok::<D3d11TextureFrameFormat, D3d11FrameContractError>(format),
            Err(text) => r matches Err(D3d11FrameContractError::UnsupportedTextureFormat(t)) && t@
                == text,
        },
{
    match dxgi_frame_format(code) {
        Some(format) => Ok(format),
        None => Err(D3d11FrameContractError::UnsupportedTextureFormat(dxgi_format_text(code))),
    }
}

/// Where byte `i` of an RGBA row is found in the BGRA row it is converted from: blue and
/// red trade places, green and alpha stay.
pub open spec fn bgra_source_index(i: int) -> int {
    let channel = i % 4;
    if channel == 0 {
        i + 2
    } else if channel == 2 {
        i - 2
    } else {
        i
    }
}

/// A row of pixels in `format`, as RGBA bytes. A BGRA row is converted pixel by pixel;
/// a trailing partial pixel is dropped.
pub open spec fn spec_rgba_row(format: D3d11TextureFrameFormat, row: Seq<u8>) -> Seq<u8> {
    match format {
        D3d11TextureFrameFormat::Rgba8Unorm => row,
        D3d11TextureFrameFormat::Bgra8Unorm => Seq::new(
            (row.len() / 4 * 4) as nat,
            |i: int| row[bgra_source_index(i)],
        ),
    }
}

/// Rows `0..rows` of a mapped texture, each `row_len` bytes taken every `row_pitch`
/// bytes, converted to RGBA and packed one after another.
pub open spec fn spec_mapped_rows(
    format: D3d11TextureFrameFormat,
    source: Seq<u8>,
    rows: nat,
    row_pitch: nat,
    row_len: nat,
) -> Seq<u8>
    decreases rows,
{
    if rows == 0 {
        Seq::empty()
    } else {
        let r = (rows - 1) as nat;
        spec_mapped_rows(format, source, r, row_pitch, row_len) + spec_rgba_row(
            format,
            source.subrange((r * row_pitch) as int, (r * row_pitch + row_len) as int),
        )
    }
}

/// The RGBA bytes of a mapped `width` x `height` region whose rows are `row_pitch` bytes
/// apart: the pitch must hold a row, and the sizes must fit in `usize`.
pub open spec fn spec_mapped_region_to_rgba(
    format: D3d11TextureFrameFormat,
    width: u32,
    height: u32,
    row_pitch: u32,
    source: Seq<u8>,
) -> Result<Seq<u8>, D3d11FrameContractError> {
    let row_len = width * 4;
    if row_len > usize::MAX {
        Err(D3d11FrameContractError::PitchOverflow)
    } else if row_pitch < row_len {
        if row_len > u32::MAX {
            Err(D3d11FrameContractError::PitchOverflow)
        } else {
            Err(D3d11FrameContractError::RowPitchTooSmall { row_pitch, minimum: row_len as u32 })
        }
    } else if row_len * height > usize::MAX || row_pitch * height > usize::MAX {
        Err(D3d11FrameContractError::PitchOverflow)
    } else {
        Ok(spec_mapped_rows(format, source, height as nat, row_pitch as nat, row_len as nat))
    }
}

fn append_rgba_row(
    format: D3d11TextureFrameFormat,
    source: &[u8],
    start: usize,
    row_len: usize,
    rgba: &mut Vec<u8>,
)
    requires
        start + row_len <= source@.len(),
        row_len % 4 == 0,
    ensures
        final(rgba)@ == old(rgba)@ + spec_rgba_row(
            format,
            source@.subrange(start as int, (start + row_len) as int),
        ),
{
    let n = source.len();
    let ghost prefix = rgba@;
    let ghost row = source@.subrange(start as int, (start + row_len) as int);
    let ghost converted = spec_rgba_row(format, row);
    assert(converted.len() == row_len);
    let mut i: usize = 0;
    match format {
        D3d11TextureFrameFormat::Rgba8Unorm => {
            while i < row_len
                invariant
                    start + row_len <= n,
                    n == source@.len(),
                    i <= row_len,
                    row == source@.subrange(start as int, (start + row_len) as int),
                    converted == row,
                    rgba@ == prefix + converted.subrange(0, i as int),
                decreases row_len - i,
            {
                rgba.push(source[start + i]);
                i = i + 1;
                assert(rgba@ =~= prefix + converted.subrange(0, i as int));
            }
        },
        D3d11TextureFrameFormat::Bgra8Unorm => {
            while i < row_len
                invariant
                    start + row_len <= n,
                    n == source@.len(),
                    i <= row_len,
                    i % 4 == 0,
                    row_len % 4 == 0,
                    row == source@.subrange(start as int, (start + row_len) as int),
                    converted == spec_rgba_row(D3d11TextureFrameFormat::Bgra8Unorm, row),
                    converted.len() == row_len,
                    rgba@ == prefix + converted.subrange(0, i as int),
                decreases row_len - i,
            {
                let p = start + i;
                rgba.push(source[p + 2]);
                rgba.push(source[p + 1]);
                rgba.push(source[p]);
                rgba.push(source[p + 3]);
                proof {
                    let ii = i as int;
                    assert(bgra_source_index(ii) == ii + 2);
                    assert(bgra_source_index(ii + 1) == ii + 1);
                    assert(bgra_source_index(ii + 2) == ii);
                    assert(bgra_source_index(ii + 3) == ii + 3);
                }
                i = i + 4;
                assert(rgba@ =~= prefix + converted.subrange(0, i as int));
            }
        },
    }
    assert(converted.subrange(0, row_len as int) =~= converted);
}

/// Converts a mapped `width` x `height` region into tightly packed RGBA bytes.
///
/// `source` is the mapped memory, `row_pitch` bytes per row for `height` rows.
pub fn mapped_region_to_rgba(
    format: D3d11TextureFrameFormat,
    width: u32,
    height: u32,
    row_pitch: u32,
    source: &[u8],
) -> (r: Result<Vec<u8>, D3d11FrameContractError>)
    requires
        row_pitch * height <= source@.len(),
    ensures
        match spec_mapped_region_to_rgba(format, width, height, row_pitch, source@) {
            Ok(bytes) => r matches Ok(v) && v@ == bytes,
            Err(e) => r == Err::<Vec<u8>, D3d11FrameContractError>(e),
        },
{
    let pitch = row_pitch as usize;
    let width_bytes = width as usize;
    let rows = height as usize;
    let row_len = match width_bytes.checked_mul(4) {
        Some(v) => v,
        None => {
            return Err(D3d11FrameContractError::PitchOverflow);
        },
    };
    if pitch < row_len {
        if row_len > u32::MAX as usize {
            return Err(D3d11FrameContractError::PitchOverflow);
        }
        return Err(
            D3d11FrameContractError::RowPitchTooSmall { row_pitch, minimum: row_len as u32 },
        );
    }
    let output_len = match row_len.checked_mul(rows) {
        Some(v) => v,
        None => {
            return Err(D3d11FrameContractError::PitchOverflow);
        },
    };
    let source_len = match pitch.checked_mul(rows) {
        Some(v) => v,
        None => {
            return Err(D3d11FrameContractError::PitchOverflow);
        },
    };
    let mut rgba: Vec<u8> = Vec::with_capacity(output_len);
    let mut row: usize = 0;
    while row < rows
        invariant
            row <= rows,
            rows == height,
            pitch == row_pitch,
            row_len == width * 4,
            row_len <= pitch,
            source_len == pitch * rows,
            source_len <= source@.len(),
            rgba@ == spec_mapped_rows(format, source@, row as nat, pitch as nat, row_len as nat),
        decreases rows - row,
    {
        proof {
            assert(row * pitch + row_len <= pitch * rows) by (nonlinear_arith)
                requires
                    row < rows,
                    row_len <= pitch,
            ;
        }
        let start = row * pitch;
        let end = start + row_len;
        if end > source.len() {
            return Err(D3d11FrameContractError::ByteLenTooSmall { byte_len: source.len(), minimum: end });
        }
        append_rgba_row(format, source, start, row_len, &mut rgba);
        row = row + 1;
    }
    Ok(rgba)
}

/// How many bytes a mapped region converts to: `height` rows of `width` pixels, four
/// bytes each.
pub proof fn mapped_rows_len(
    format: D3d11TextureFrameFormat,
    source: Seq<u8>,
    rows: nat,
    row_pitch: nat,
    row_len: nat,
)
    requires
        row_len % 4 == 0,
        row_len <= row_pitch,
        row_pitch * rows <= source.len(),
    ensures
        spec_mapped_rows(format, source, rows, row_pitch, row_len).len() == rows * row_len,
    decreases rows,
{
    if rows > 0 {
        let r = (rows - 1) as nat;
        assert(row_pitch * r <= row_pitch * rows) by (nonlinear_arith)
            requires
                r < rows,
        ;
        assert(r * row_pitch + row_len <= row_pitch * rows) by (nonlinear_arith)
            requires
                r + 1 == rows,
                row_len <= row_pitch,
        ;
        mapped_rows_len(format, source, r, row_pitch, row_len);
        let line = source.subrange((r * row_pitch) as int, (r * row_pitch + row_len) as int);
        assert(line.len() == row_len);
        assert(row_len / 4 * 4 == row_len);
        assert(spec_rgba_row(format, line).len() == row_len);
        assert(spec_mapped_rows(format, source, rows, row_pitch, row_len) == spec_mapped_rows(
            format,
            source,
            r,
            row_pitch,
            row_len,
        ) + spec_rgba_row(format, line));
        assert(r * row_len + row_len == rows * row_len) by (nonlinear_arith)
            requires
                r + 1 == rows,
        ;
    } else {
        assert(rows * row_len == 0) by (nonlinear_arith)
            requires
                rows == 0,
        ;
    }
}

/// Every converted pixel is the source pixel with its channels in RGBA order: for BGRA
/// sources red and blue trade places, for RGBA sources nothing moves.
pub proof fn mapped_rows_pixel(
    format: D3d11TextureFrameFormat,
    source: Seq<u8>,
    rows: nat,
    row_pitch: nat,
    width: nat,
    row: nat,
    x: nat,
    channel: nat,
)
    requires
        width * 4 <= row_pitch,
        row_pitch * rows <= source.len(),
        row < rows,
        x < width,
        channel < 4,
    ensures
        spec_mapped_rows(format, source, rows, row_pitch, width * 4)[(row * (width * 4) + x * 4
            + channel) as int] == source[row * row_pitch + x * 4 + match format {
            D3d11TextureFrameFormat::Rgba8Unorm => channel as int,
            D3d11TextureFrameFormat::Bgra8Unorm => if channel == 0 {
                2
            } else if channel == 2 {
                0
            } else {
                channel as int
            },
        }],
    decreases rows,
{
    let row_len = width * 4;
    let r = (rows - 1) as nat;
    assert(r * row_pitch + row_len <= row_pitch * rows) by (nonlinear_arith)
        requires
            r + 1 == rows,
            row_len <= row_pitch,
    ;
    assert(row_pitch * r <= row_pitch * rows) by (nonlinear_arith)
        requires
            r < rows,
    ;
    mapped_rows_len(format, source, r, row_pitch, row_len);
    let earlier = spec_mapped_rows(format, source, r, row_pitch, row_len);
    let offset = x * 4 + channel;
    assert(offset < row_len);
    if row < r {
        mapped_rows_pixel(format, source, r, row_pitch, width, row, x, channel);
        assert(row * row_len + offset < r * row_len) by (nonlinear_arith)
            requires
                row < r,
                offset < row_len,
        ;
    } else {
        assert(row == r);
        let line = source.subrange((r * row_pitch) as int, (r * row_pitch + row_len) as int);
        assert(earlier.len() == r * row_len);
        assert((x * 4 + channel) % 4 == channel) by (nonlinear_arith)
            requires
                channel < 4,
        ;
        assert(row_len / 4 * 4 == row_len);
    }
}

/// Checks a region readback before anything is copied: the crop must be non-empty, the
/// texture format supported, and the crop inside the texture.
pub fn dxgi_region_readback_format(
    crop: CropRect,
    texture_width: u32,
    texture_height: u32,
    format_code: i32,
) -> (r: Result<D3d11TextureFrameFormat, D3d11FrameContractError>)
    ensures
        crop.spec_is_empty() ==> r == Err::<D3d11TextureFrameFormat, D3d11FrameContractError>(
            D3d11FrameContractError::EmptyDimensions { width: crop.width, height: crop.height },
        ),
        !crop.spec_is_empty() ==> match spec_dxgi_texture_format(format_code) {
            Err(text) => r matches Err(D3d11FrameContractError::UnsupportedTextureFormat(t)) && t@
                == text,
            Ok(format) => if crop.spec_right() > texture_width || crop.spec_bottom() > texture_height {
                r == Err::<D3d11TextureFrameFormat, D3d11FrameContractError>(
                    D3d11FrameContractError::SelectedRegionOutsideFrame,
                )
            } else {
                r == Ok::<D3d11TextureFrameFormat, D3d11FrameContractError>(format)
            },
        },
{
    if crop.is_empty() {
        return Err(D3d11FrameContractError::EmptyDimensions { width: crop.width, height: crop.height });
    }
    let format = match dxgi_texture_format(format_code) {
        Ok(format) => format,
        Err(e) => {
            return Err(e);
        },
    };
    if crop.right() > texture_width || crop.bottom() > texture_height {
        return Err(D3d11FrameContractError::SelectedRegionOutsideFrame);
    }
    Ok(format)
}

/// The text of a readback-source check that found the image larger than the texture.
pub open spec fn spec_bounds_exceed_texture_text(bounds: ImageBounds, width: u32, height: u32) -> Seq<char> {
    "DXGI selected readback bounds "@ + decimal(bounds.width as nat) + "x"@ + decimal(
        bounds.height as nat,
    ) + " exceed texture "@ + decimal(width as nat) + "x"@ + decimal(height as nat)
}

/// Checks that a DXGI texture can serve as the readback source of an image of `bounds`:
/// the bounds must be non-empty, the texture format supported, and the texture at least
/// as large as the bounds.
pub fn validate_dxgi_readback_source(
    bounds: ImageBounds,
    texture_width: u32,
    texture_height: u32,
    format_code: i32,
) -> (r: Result<(), SelectedImageBridgeError>)
    ensures
        bounds.width == 0 || bounds.height == 0 ==> (r matches Err(
            SelectedImageBridgeError::InvalidFrame(text),
        ) && text@ == "DXGI selected readback source bounds are empty"@),
        !(bounds.width == 0 || bounds.height == 0) ==> match spec_dxgi_texture_format(format_code) {
            Err(format_text) => r matches Err(SelectedImageBridgeError::InvalidFrame(text)) && text@
                == "unsupported D3D11 texture format for RGBA readback: "@ + format_text,
            Ok(_) => if bounds.width > texture_width || bounds.height > texture_height {
                r matches Err(SelectedImageBridgeError::InvalidFrame(text)) && text@
                    == spec_bounds_exceed_texture_text(bounds, texture_width, texture_height)
            } else {
                r is Ok
            },
        },
{
    if bounds.width == 0 || bounds.height == 0 {
        return Err(
            SelectedImageBridgeError::InvalidFrame(
                String::from_str("DXGI selected readback source bounds are empty"),
            ),
        );
    }
    match dxgi_texture_format(format_code) {
        Ok(_) => {},
        Err(e) => {
            return Err(SelectedImageBridgeError::InvalidFrame(e.to_string()));
        },
    }
    if bounds.width > texture_width || bounds.height > texture_height {
        let mut text = String::from_str("DXGI selected readback bounds ");
        push_u64(&mut text, bounds.width as u64);
        text.append("x");
        push_u64(&mut text, bounds.height as u64);
        text.append(" exceed texture ");
        push_u64(&mut text, texture_width as u64);
        text.append("x");
        push_u64(&mut text, texture_height as u64);
        proof {
            assert(text@ =~= spec_bounds_exceed_texture_text(bounds, texture_width, texture_height));
        }
        return Err(SelectedImageBridgeError::InvalidFrame(text));
    }
    Ok(())
}

/// The frame contract of a whole-texture readback: the staging layout of the mapped
/// texture and the bytes copied out of it.
pub fn dxgi_staging_readback_frame(
    width: u32,
    height: u32,
    format: D3d11TextureFrameFormat,
    row_pitch: u32,
    bytes: Vec<u8>,
    frame_id: u64,
) -> (r: Result<D3d11TextureFrame, D3d11FrameContractError>)
    ensures
        match D3d11StagingReadbackMetadata::spec_new(width, height, row_pitch, true) {
            Err(e) => r == Err::<D3d11TextureFrame, D3d11FrameContractError>(e),
            Ok(staging) => {
                let metadata = D3d11TextureFrameMetadata {
                    staging_readback: Some(staging),
                    frame_id,
                    ..D3d11TextureFrameMetadata::spec_new(
                        D3d11FrameSource::DxgiDesktopDuplication,
                        width,
                        height,
                        format,
                    )
                };
                &&& r is Ok <==> (metadata.spec_validate() is Ok && bytes@.len() >= staging.byte_len)
                &&& r matches Ok(frame) ==> frame.metadata == metadata && frame.readback_bytes == Some(
                    bytes,
                )
            },
        },
{
    let staging = match D3d11StagingReadbackMetadata::new(width, height, row_pitch, true) {
        Ok(staging) => staging,
        Err(e) => {
            return Err(e);
        },
    };
    let metadata = D3d11TextureFrameMetadata::new(
        D3d11FrameSource::DxgiDesktopDuplication,
        width,
        height,
        format,
    ).with_staging_readback(staging).with_frame_id(frame_id);
    D3d11TextureFrame::new(metadata, Some(bytes))
}

} // verus!
