//! Drawing a captured RGBA frame into the overlay window, and the checks made first.
use vstd::prelude::*;

use crate::capture::RgbaFrame;
use crate::text::{decimal, push_u64};

verus! {

/// The renderer implementation.
#[derive(Debug, Clone, Copy, PartialEq, Eq, Structural)]
pub enum OverlayRendererBackend {
    CpuRgbaGdiDib,
}

impl OverlayRendererBackend {
    pub fn to_string(self) -> (r: String)
        ensures
            r@ == "cpu-rgba-gdi-dib"@,
    {
        String::from_str("cpu-rgba-gdi-dib")
    }
}

/// The pixel layout the renderer accepts.
#[derive(Debug, Clone, Copy, PartialEq, Eq, Structural)]
pub enum OverlayRendererPixelFormat {
    Rgba8,
}

/// How the renderer treats alpha.
#[derive(Debug, Clone, Copy, PartialEq, Eq, Structural)]
pub enum OverlayRendererAlphaMode {
    Straight,
}

/// The row order of the frames the renderer accepts.
#[derive(Debug, Clone, Copy, PartialEq, Eq, Structural)]
pub enum OverlayRendererOrientation {
    TopDown,
}

/// What the renderer accepts and how it draws.
#[derive(Debug, Clone, Copy, PartialEq, Eq, Structural)]
pub struct OverlayRendererContract {
    pub backend: OverlayRendererBackend,
    pub input_format: OverlayRendererPixelFormat,
    pub alpha_mode: OverlayRendererAlphaMode,
    pub orientation: OverlayRendererOrientation,
    pub requires_tightly_packed_rgba: bool,
    pub uses_window_dc: bool,
    pub owns_message_loop: bool,
}

impl OverlayRendererContract {
    pub open spec fn spec_cpu_rgba_gdi_dib() -> Self {
        OverlayRendererContract {
            backend: OverlayRendererBackend::CpuRgbaGdiDib,
            input_format: OverlayRendererPixelFormat::Rgba8,
            alpha_mode: OverlayRendererAlphaMode::Straight,
            orientation: OverlayRendererOrientation::TopDown,
            requires_tightly_packed_rgba: true,
            uses_window_dc: true,
            owns_message_loop: false,
        }
    }

    pub fn cpu_rgba_gdi_dib() -> (r: Self)
        ensures
            r == Self::spec_cpu_rgba_gdi_dib(),
    {
        Self {
            backend: OverlayRendererBackend::CpuRgbaGdiDib,
            input_format: OverlayRendererPixelFormat::Rgba8,
            alpha_mode: OverlayRendererAlphaMode::Straight,
            orientation: OverlayRendererOrientation::TopDown,
            requires_tightly_packed_rgba: true,
            uses_window_dc: true,
            owns_message_loop: false,
        }
    }
}

impl Default for OverlayRendererContract {
    fn default() -> (r: Self)
        ensures
            r == Self::spec_cpu_rgba_gdi_dib(),
    {
        Self::cpu_rgba_gdi_dib()
    }
}

/// The window and destination rectangle to draw into.
#[derive(Debug, Clone, Copy, PartialEq, Eq, Structural)]
pub struct OverlayRenderTarget {
    pub hwnd: isize,
    pub dst_x: i32,
    pub dst_y: i32,
    pub dst_width: u32,
    pub dst_height: u32,
}

impl OverlayRenderTarget {
    pub open spec fn spec_is_empty(self) -> bool {
        self.hwnd == 0 || self.dst_width == 0 || self.dst_height == 0
    }

    pub fn hwnd(hwnd: isize, width: u32, height: u32) -> (r: Self)
        ensures
            r == (OverlayRenderTarget { hwnd, dst_x: 0, dst_y: 0, dst_width: width, dst_height: height }),
    {
        Self { hwnd, dst_x: 0, dst_y: 0, dst_width: width, dst_height: height }
    }

    pub fn with_position(hwnd: isize, dst_x: i32, dst_y: i32, dst_width: u32, dst_height: u32) -> (r:
        Self)
        ensures
            r == (OverlayRenderTarget { hwnd, dst_x, dst_y, dst_width, dst_height }),
    {
        Self { hwnd, dst_x, dst_y, dst_width, dst_height }
    }

    pub fn is_empty(self) -> (r: bool)
        ensures
            r == self.spec_is_empty(),
    {
        self.hwnd == 0 || self.dst_width == 0 || self.dst_height == 0
    }
}

pub type OverlayRenderResult<T> = Result<T, OverlayRenderError>;

/// A render failure, whether the overlay may retry, and its text.
#[derive(Debug, Clone, PartialEq, Eq)]
pub struct OverlayRenderError {
    pub kind: OverlayRenderErrorKind,
    pub recoverable: bool,
    pub message: String,
}

impl OverlayRenderError {
    /// The error has this kind, recoverability and text.
    pub open spec fn is(&self, kind: OverlayRenderErrorKind, recoverable: bool, message: Seq<char>) -> bool {
        self.kind == kind && self.recoverable == recoverable && self.message@ == message
    }

    pub fn recoverable(kind: OverlayRenderErrorKind, message: String) -> (r: Self)
        ensures
            r.kind == kind && r.recoverable && r.message == message,
    {
        Self { kind, recoverable: true, message }
    }

    pub fn fatal(kind: OverlayRenderErrorKind, message: String) -> (r: Self)
        ensures
            r.kind == kind && !r.recoverable && r.message == message,
    {
        Self { kind, recoverable: false, message }
    }

    pub fn to_string(&self) -> (r: String)
        ensures
            r@ == self.message@,
    {
        self.message.clone()
    }

    pub fn duplicate(&self) -> (r: Self)
        ensures
            r == *self,
    {
        Self { kind: self.kind, recoverable: self.recoverable, message: self.message.clone() }
    }
}

/// What went wrong while rendering.
#[derive(Debug, Clone, Copy, PartialEq, Eq, Structural)]
pub enum OverlayRenderErrorKind {
    EmptyTarget,
    InvalidFrameLength { expected: usize, actual: usize },
    DimensionOverflow,
    UnsupportedPlatform,
    DeviceContextUnavailable,
    GdiBlitFailed,
}

/// What a successful render drew.
#[derive(Debug, Clone, Copy, PartialEq, Eq, Structural)]
pub struct OverlayRenderReceipt {
    pub backend: OverlayRendererBackend,
    pub hwnd: isize,
    pub width: u32,
    pub height: u32,
    pub bytes_uploaded: usize,
}

/// What would happen if the frame were rendered into the target.
#[derive(Debug, Clone, PartialEq, Eq)]
pub struct OverlayRenderDiagnostics {
    pub backend: OverlayRendererBackend,
    pub target: OverlayRenderTarget,
    pub frame_width: u32,
    pub frame_height: u32,
    pub frame_byte_len: usize,
    pub expected_byte_len: Option<usize>,
    pub tightly_packed_rgba: bool,
    pub can_attempt_render: bool,
    pub failure: Option<OverlayRenderError>,
}

/// `width * height * 4` when it fits in `usize`.
pub open spec fn spec_expected_rgba_len(width: u32, height: u32) -> Option<usize> {
    if width * height * 4 <= usize::MAX {
        Some((width * height * 4) as usize)
    } else {
        None
    }
}

/// The first check that a render request fails, as (kind, recoverable, message).
pub open spec fn spec_render_request_failure(target: OverlayRenderTarget, frame: RgbaFrame) -> Option<
    (OverlayRenderErrorKind, bool, Seq<char>),
> {
    if target.spec_is_empty() {
        Some(
            (
                OverlayRenderErrorKind::EmptyTarget,
                true,
                "native overlay render target is empty"@,
            ),
        )
    } else {
        match spec_expected_rgba_len(frame.width, frame.height) {
            None => Some(
                (
                    OverlayRenderErrorKind::DimensionOverflow,
                    false,
                    "native overlay frame dimensions overflow RGBA buffer length"@,
                ),
            ),
            Some(expected) => if frame.bytes@.len() != expected {
                Some(
                    (
                        OverlayRenderErrorKind::InvalidFrameLength {
                            expected,
                            actual: frame.bytes@.len() as usize,
                        },
                        true,
                        "native overlay frame length mismatch: expected "@ + decimal(expected as nat)
                            + ", got "@ + decimal(frame.bytes@.len()),
                    ),
                )
            } else if frame.width > i32::MAX || frame.height > i32::MAX || target.dst_width
                > i32::MAX || target.dst_height > i32::MAX {
                Some(
                    (
                        OverlayRenderErrorKind::DimensionOverflow,
                        false,
                        "native overlay render dimension exceeds Win32 i32 range"@,
                    ),
                )
            } else {
                None
            },
        }
    }
}

impl OverlayRenderDiagnostics {
    pub fn from_request(target: OverlayRenderTarget, frame: &RgbaFrame) -> (r: Self)
        ensures
            r.backend == OverlayRendererBackend::CpuRgbaGdiDib,
            r.target == target,
            r.frame_width == frame.width,
            r.frame_height == frame.height,
            r.frame_byte_len == frame.bytes@.len(),
            r.expected_byte_len == spec_expected_rgba_len(frame.width, frame.height),
            r.tightly_packed_rgba == (r.expected_byte_len == Some(frame.bytes@.len() as usize)),
            r.can_attempt_render == spec_render_request_failure(target, *frame) is None,
            match spec_render_request_failure(target, *frame) {
                None => r.failure is None,
                Some((kind, recoverable, message)) => r.failure matches Some(e) && e.is(
                    kind,
                    recoverable,
                    message,
                ),
            },
    {
        let expected_byte_len = match expected_rgba_len(frame.width, frame.height) {
            Ok(len) => Some(len),
            Err(_) => None,
        };
        let failure = match validate_render_request(target, frame) {
            Ok(()) => None,
            Err(e) => Some(e),
        };
        let tightly_packed_rgba = match expected_byte_len {
            Some(len) => len == frame.bytes.len(),
            None => false,
        };
        Self {
            backend: OverlayRendererBackend::CpuRgbaGdiDib,
            target,
            frame_width: frame.width,
            frame_height: frame.height,
            frame_byte_len: frame.bytes.len(),
            expected_byte_len,
            tightly_packed_rgba,
            can_attempt_render: failure.is_none(),
            failure,
        }
    }
}

pub fn overlay_renderer_contract() -> (r: OverlayRendererContract)
    ensures
        r == OverlayRendererContract::spec_cpu_rgba_gdi_dib(),
{
    OverlayRendererContract::cpu_rgba_gdi_dib()
}

/// Renders the frame; off Windows a valid request ends in the unsupported-platform error.
pub fn render_rgba_frame_to_overlay(target: OverlayRenderTarget, frame: &RgbaFrame) -> (r:
    OverlayRenderResult<OverlayRenderReceipt>)
    ensures
        match spec_render_request_failure(target, *frame) {
            Some((kind, recoverable, message)) => r matches Err(e) && e.is(kind, recoverable, message),
            None => r matches Err(e) && e.is(
                OverlayRenderErrorKind::UnsupportedPlatform,
                false,
                "native overlay CPU RGBA/GDI/DIB renderer is Windows-only"@,
            ),
        },
{
    match validate_render_request(target, frame) {
        Ok(()) => {},
        Err(e) => return Err(e),
    }
    render_rgba_frame_to_platform_overlay(target, frame)
}

pub fn diagnose_overlay_render_request(target: OverlayRenderTarget, frame: &RgbaFrame) -> (r:
    OverlayRenderDiagnostics)
    ensures
        r.target == target,
        r.expected_byte_len == spec_expected_rgba_len(frame.width, frame.height),
        r.can_attempt_render == spec_render_request_failure(target, *frame) is None,
        match spec_render_request_failure(target, *frame) {
            None => r.failure is None,
            Some((kind, recoverable, message)) => r.failure matches Some(e) && e.is(
                kind,
                recoverable,
                message,
            ),
        },
{
    OverlayRenderDiagnostics::from_request(target, frame)
}

fn validate_render_request(target: OverlayRenderTarget, frame: &RgbaFrame) -> (r:
    OverlayRenderResult<()>)
    ensures
        match spec_render_request_failure(target, *frame) {
            None => r is Ok,
            Some((kind, recoverable, message)) => r matches Err(e) && e.is(kind, recoverable, message),
        },
{
    if target.is_empty() {
        return Err(
            OverlayRenderError::recoverable(
                OverlayRenderErrorKind::EmptyTarget,
                String::from_str("native overlay render target is empty"),
            ),
        );
    }
    let expected = match expected_rgba_len(frame.width, frame.height) {
        Ok(len) => len,
        Err(e) => return Err(e),
    };
    if frame.bytes.len() != expected {
        let mut message = String::from_str("native overlay frame length mismatch: expected ");
        push_u64(&mut message, expected as u64);
        message.append(", got ");
        push_u64(&mut message, frame.bytes.len() as u64);
        return Err(
            OverlayRenderError::recoverable(
                OverlayRenderErrorKind::InvalidFrameLength { expected, actual: frame.bytes.len() },
                message,
            ),
        );
    }
    match checked_i32_dimension(frame.width) {
        Ok(_) => {},
        Err(e) => return Err(e),
    }
    match checked_i32_dimension(frame.height) {
        Ok(_) => {},
        Err(e) => return Err(e),
    }
    match checked_i32_dimension(target.dst_width) {
        Ok(_) => {},
        Err(e) => return Err(e),
    }
    match checked_i32_dimension(target.dst_height) {
        Ok(_) => {},
        Err(e) => return Err(e),
    }
    Ok(())
}

fn expected_rgba_len(width: u32, height: u32) -> (r: OverlayRenderResult<usize>)
    ensures
        match spec_expected_rgba_len(width, height) {
            Some(len) => r == Ok::<usize, OverlayRenderError>(len),
            None => r matches Err(e) && e.is(
                OverlayRenderErrorKind::DimensionOverflow,
                false,
                "native overlay frame dimensions overflow RGBA buffer length"@,
            ),
        },
{
    let overflow = OverlayRenderErrorKind::DimensionOverflow;
    match (width as usize).checked_mul(height as usize) {
        Some(pixels) => match pixels.checked_mul(RgbaFrame::BYTES_PER_PIXEL) {
            Some(len) => Ok(len),
            None => Err(
                OverlayRenderError::fatal(
                    overflow,
                    String::from_str("native overlay frame dimensions overflow RGBA buffer length"),
                ),
            ),
        },
        None => {
            proof {
                let w = width as int;
                let h = height as int;
                assert(w * h * 4 >= w * h) by (nonlinear_arith)
                    requires
                        w >= 0,
                        h >= 0,
                ;
            }
            Err(
                OverlayRenderError::fatal(
                    overflow,
                    String::from_str("native overlay frame dimensions overflow RGBA buffer length"),
                ),
            )
        },
    }
}

fn checked_i32_dimension(value: u32) -> (r: OverlayRenderResult<i32>)
    ensures
        value <= i32::MAX ==> r == Ok::<i32, OverlayRenderError>(value as i32),
        value > i32::MAX ==> (r matches Err(e) && e.is(
            OverlayRenderErrorKind::DimensionOverflow,
            false,
            "native overlay render dimension exceeds Win32 i32 range"@,
        )),
{
    if value > i32::MAX as u32 {
        return Err(
            OverlayRenderError::fatal(
                OverlayRenderErrorKind::DimensionOverflow,
                String::from_str("native overlay render dimension exceeds Win32 i32 range"),
            ),
        );
    }
    Ok(value as i32)
}

fn render_rgba_frame_to_platform_overlay(target: OverlayRenderTarget, frame: &RgbaFrame) -> (r:
    OverlayRenderResult<OverlayRenderReceipt>)
    ensures
        r matches Err(e) && e.is(
            OverlayRenderErrorKind::UnsupportedPlatform,
            false,
            "native overlay CPU RGBA/GDI/DIB renderer is Windows-only"@,
        ),
{
    Err(
        OverlayRenderError::fatal(
            OverlayRenderErrorKind::UnsupportedPlatform,
            String::from_str("native overlay CPU RGBA/GDI/DIB renderer is Windows-only"),
        ),
    )
}

} // verus!
