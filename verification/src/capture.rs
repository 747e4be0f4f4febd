//! Capture backends, monitor bounds and tightly packed RGBA frames.
use vstd::prelude::*;

use crate::text::{decimal, push_i64, push_u64, signed_decimal};

verus! {

/// The three ways the overlay can obtain desktop pixels.
#[derive(Debug, Clone, Copy, PartialEq, Eq, Structural)]
pub enum CaptureBackendKind {
    ExistingCpu,
    WindowsGraphicsCapture,
    DesktopDuplication,
}

impl CaptureBackendKind {
    pub open spec fn spec_contract(self) -> CaptureBackendContract {
        match self {
            CaptureBackendKind::ExistingCpu => CaptureBackendContract::spec_cpu(),
            CaptureBackendKind::WindowsGraphicsCapture => CaptureBackendContract::spec_wgc(),
            CaptureBackendKind::DesktopDuplication => CaptureBackendContract::spec_dxgi(),
        }
    }

    pub open spec fn spec_is_gpu(self) -> bool {
        self is WindowsGraphicsCapture || self is DesktopDuplication
    }

    /// The kebab-case name of the backend.
    pub open spec fn spec_name(self) -> Seq<char> {
        match self {
            CaptureBackendKind::ExistingCpu => "existing-cpu"@,
            CaptureBackendKind::WindowsGraphicsCapture => "windows-graphics-capture"@,
            CaptureBackendKind::DesktopDuplication => "desktop-duplication"@,
        }
    }

    /// The variant name, as a derived `Debug` prints it.
    pub open spec fn spec_debug_name(self) -> Seq<char> {
        match self {
            CaptureBackendKind::ExistingCpu => "ExistingCpu"@,
            CaptureBackendKind::WindowsGraphicsCapture => "WindowsGraphicsCapture"@,
            CaptureBackendKind::DesktopDuplication => "DesktopDuplication"@,
        }
    }

    pub fn contract(self) -> (r: CaptureBackendContract)
        ensures
            r == self.spec_contract(),
    {
        match self {
            CaptureBackendKind::ExistingCpu => CaptureBackendContract::cpu(),
            CaptureBackendKind::WindowsGraphicsCapture => CaptureBackendContract::wgc(),
            CaptureBackendKind::DesktopDuplication => CaptureBackendContract::dxgi(),
        }
    }

    pub fn is_gpu(self) -> (r: bool)
        ensures
            r == self.spec_is_gpu(),
    {
        match self {
            CaptureBackendKind::WindowsGraphicsCapture | CaptureBackendKind::DesktopDuplication => true,
            CaptureBackendKind::ExistingCpu => false,
        }
    }

    pub fn name(self) -> (r: &'static str)
        ensures
            r@ == self.spec_name(),
    {
        match self {
            CaptureBackendKind::ExistingCpu => "existing-cpu",
            CaptureBackendKind::WindowsGraphicsCapture => "windows-graphics-capture",
            CaptureBackendKind::DesktopDuplication => "desktop-duplication",
        }
    }

    pub fn debug_name(self) -> (r: &'static str)
        ensures
            r@ == self.spec_debug_name(),
    {
        match self {
            CaptureBackendKind::ExistingCpu => "ExistingCpu",
            CaptureBackendKind::WindowsGraphicsCapture => "WindowsGraphicsCapture",
            CaptureBackendKind::DesktopDuplication => "DesktopDuplication",
        }
    }

    /// The display text of the backend: its kebab-case name.
    pub fn to_string(self) -> (r: String)
        ensures
            r@ == self.spec_name(),
    {
        String::from_str(self.name())
    }
}

/// The pixel layout a backend hands back.
#[derive(Debug, Clone, Copy, PartialEq, Eq, Structural)]
pub enum CapturePixelFormat {
    Rgba8,
}

/// Where captured pixels live before they reach the overlay.
#[derive(Debug, Clone, Copy, PartialEq, Eq, Structural)]
pub enum CaptureReadbackMode {
    CpuMemory,
    GpuTextureReadback,
}

/// What a capture backend promises about the frames it returns.
#[derive(Debug, Clone, Copy, PartialEq, Eq, Structural)]
pub struct CaptureBackendContract {
    pub backend: CaptureBackendKind,
    pub output_format: CapturePixelFormat,
    pub readback_mode: CaptureReadbackMode,
    pub supports_region_capture: bool,
    pub supports_negative_origin: bool,
    pub may_return_protected_content: bool,
}

impl CaptureBackendContract {
    pub open spec fn spec_cpu() -> Self {
        CaptureBackendContract {
            backend: CaptureBackendKind::ExistingCpu,
            output_format: CapturePixelFormat::Rgba8,
            readback_mode: CaptureReadbackMode::CpuMemory,
            supports_region_capture: true,
            supports_negative_origin: true,
            may_return_protected_content: false,
        }
    }

    pub open spec fn spec_wgc() -> Self {
        CaptureBackendContract {
            backend: CaptureBackendKind::WindowsGraphicsCapture,
            output_format: CapturePixelFormat::Rgba8,
            readback_mode: CaptureReadbackMode::GpuTextureReadback,
            supports_region_capture: true,
            supports_negative_origin: true,
            may_return_protected_content: true,
        }
    }

    pub open spec fn spec_dxgi() -> Self {
        CaptureBackendContract {
            backend: CaptureBackendKind::DesktopDuplication,
            output_format: CapturePixelFormat::Rgba8,
            readback_mode: CaptureReadbackMode::GpuTextureReadback,
            supports_region_capture: true,
            supports_negative_origin: true,
            may_return_protected_content: true,
        }
    }

    pub fn cpu() -> (r: Self)
        ensures
            r == Self::spec_cpu(),
    {
        Self {
            backend: CaptureBackendKind::ExistingCpu,
            output_format: CapturePixelFormat::Rgba8,
            readback_mode: CaptureReadbackMode::CpuMemory,
            supports_region_capture: true,
            supports_negative_origin: true,
            may_return_protected_content: false,
        }
    }

    pub fn wgc() -> (r: Self)
        ensures
            r == Self::spec_wgc(),
    {
        Self {
            backend: CaptureBackendKind::WindowsGraphicsCapture,
            output_format: CapturePixelFormat::Rgba8,
            readback_mode: CaptureReadbackMode::GpuTextureReadback,
            supports_region_capture: true,
            supports_negative_origin: true,
            may_return_protected_content: true,
        }
    }

    pub fn dxgi() -> (r: Self)
        ensures
            r == Self::spec_dxgi(),
    {
        Self {
            backend: CaptureBackendKind::DesktopDuplication,
            output_format: CapturePixelFormat::Rgba8,
            readback_mode: CaptureReadbackMode::GpuTextureReadback,
            supports_region_capture: true,
            supports_negative_origin: true,
            may_return_protected_content: true,
        }
    }
}

/// A monitor rectangle in virtual-desktop coordinates.
#[derive(Debug, Clone, Copy, PartialEq, Eq, Structural)]
pub struct MonitorCaptureBounds {
    pub origin_x: i32,
    pub origin_y: i32,
    pub width: u32,
    pub height: u32,
}

/// `origin + extent` when the extent fits in `i32` and the sum does too.
pub open spec fn checked_edge(origin: i32, extent: u32) -> Option<i32> {
    if extent <= i32::MAX && origin + extent <= i32::MAX {
        Some((origin + extent) as i32)
    } else {
        None
    }
}

fn checked_edge_exec(origin: i32, extent: u32) -> (r: Option<i32>)
    ensures
        r == checked_edge(origin, extent),
{
    if extent > i32::MAX as u32 {
        return None;
    }
    origin.checked_add(extent as i32)
}

impl MonitorCaptureBounds {
    pub open spec fn spec_new(origin_x: i32, origin_y: i32, width: u32, height: u32) -> Self {
        MonitorCaptureBounds { origin_x, origin_y, width, height }
    }

    pub open spec fn spec_is_empty(self) -> bool {
        self.width == 0 || self.height == 0
    }

    pub open spec fn spec_right(self) -> Option<i32> {
        checked_edge(self.origin_x, self.width)
    }

    pub open spec fn spec_bottom(self) -> Option<i32> {
        checked_edge(self.origin_y, self.height)
    }

    pub open spec fn spec_area_pixels(self) -> Option<usize> {
        if self.width * self.height <= usize::MAX {
            Some((self.width * self.height) as usize)
        } else {
            None
        }
    }

    pub open spec fn spec_rgba_byte_len(self) -> Option<usize> {
        if self.width * self.height * 4 <= usize::MAX {
            Some((self.width * self.height * 4) as usize)
        } else {
            None
        }
    }

    /// The point lies inside the half-open rectangle (never, when an edge overflows).
    pub open spec fn spec_contains_point(self, x: i32, y: i32) -> bool {
        match (self.spec_right(), self.spec_bottom()) {
            (Some(right), Some(bottom)) => x >= self.origin_x && y >= self.origin_y && x < right
                && y < bottom,
            _ => false,
        }
    }

    /// The two half-open rectangles overlap (never, when an edge overflows).
    pub open spec fn spec_intersects(self, other: Self) -> bool {
        match (self.spec_right(), self.spec_bottom(), other.spec_right(), other.spec_bottom()) {
            (Some(sr), Some(sb), Some(or), Some(ob)) => self.origin_x < or && sr > other.origin_x
                && self.origin_y < ob && sb > other.origin_y,
            _ => false,
        }
    }

    /// `MonitorCaptureBounds { origin_x: .., origin_y: .., width: .., height: .. }`.
    pub open spec fn spec_debug(self) -> Seq<char> {
        "MonitorCaptureBounds { origin_x: "@ + signed_decimal(self.origin_x as int)
            + ", origin_y: "@ + signed_decimal(self.origin_y as int) + ", width: "@ + decimal(
            self.width as nat,
        ) + ", height: "@ + decimal(self.height as nat) + " }"@
    }

    pub fn new(origin_x: i32, origin_y: i32, width: u32, height: u32) -> (r: Self)
        ensures
            r == Self::spec_new(origin_x, origin_y, width, height),
    {
        Self { origin_x, origin_y, width, height }
    }

    pub fn from_tuple(value: (i32, i32, u32, u32)) -> (r: Self)
        ensures
            r == Self::spec_new(value.0, value.1, value.2, value.3),
    {
        Self::new(value.0, value.1, value.2, value.3)
    }

    pub fn as_tuple(self) -> (r: (i32, i32, u32, u32))
        ensures
            r == (self.origin_x, self.origin_y, self.width, self.height),
    {
        (self.origin_x, self.origin_y, self.width, self.height)
    }

    pub fn is_empty(self) -> (r: bool)
        ensures
            r == self.spec_is_empty(),
    {
        self.width == 0 || self.height == 0
    }

    pub fn right(self) -> (r: Option<i32>)
        ensures
            r == self.spec_right(),
    {
        checked_edge_exec(self.origin_x, self.width)
    }

    pub fn bottom(self) -> (r: Option<i32>)
        ensures
            r == self.spec_bottom(),
    {
        checked_edge_exec(self.origin_y, self.height)
    }

    pub fn area_pixels(self) -> (r: Option<usize>)
        ensures
            r == self.spec_area_pixels(),
    {
        (self.width as usize).checked_mul(self.height as usize)
    }

    pub fn rgba_byte_len(self) -> (r: Option<usize>)
        ensures
            r == self.spec_rgba_byte_len(),
    {
        match self.area_pixels() {
            Some(area) => area.checked_mul(RgbaFrame::BYTES_PER_PIXEL),
            None => {
                proof {
                    let w = self.width as int;
                    let h = self.height as int;
                    assert(w * h * 4 >= w * h) by (nonlinear_arith)
                        requires
                            w >= 0,
                            h >= 0,
                    ;
                }
                None
            },
        }
    }

    pub fn contains_point(self, x: i32, y: i32) -> (r: bool)
        ensures
            r == self.spec_contains_point(x, y),
    {
        let right = match self.right() {
            Some(right) => right,
            None => return false,
        };
        let bottom = match self.bottom() {
            Some(bottom) => bottom,
            None => return false,
        };
        x >= self.origin_x && y >= self.origin_y && x < right && y < bottom
    }

    pub fn intersects(self, other: Self) -> (r: bool)
        ensures
            r == self.spec_intersects(other),
    {
        let self_right = match self.right() {
            Some(v) => v,
            None => return false,
        };
        let self_bottom = match self.bottom() {
            Some(v) => v,
            None => return false,
        };
        let other_right = match other.right() {
            Some(v) => v,
            None => return false,
        };
        let other_bottom = match other.bottom() {
            Some(v) => v,
            None => return false,
        };
        self.origin_x < other_right && self_right > other.origin_x && self.origin_y < other_bottom
            && self_bottom > other.origin_y
    }

    /// Appends the derived `Debug` text of the bounds.
    pub fn push_debug(self, s: &mut String)
        ensures
            final(s)@ == old(s)@ + self.spec_debug(),
    {
        s.append("MonitorCaptureBounds { origin_x: ");
        push_i64(s, self.origin_x as i64);
        s.append(", origin_y: ");
        push_i64(s, self.origin_y as i64);
        s.append(", width: ");
        push_u64(s, self.width as u64);
        s.append(", height: ");
        push_u64(s, self.height as u64);
        s.append(" }");
        proof {
            assert(final(s)@ =~= old(s)@ + self.spec_debug());
        }
    }
}

/// A tightly packed RGBA frame.
#[derive(Debug, Clone)]
pub struct RgbaFrame {
    pub bytes: Vec<u8>,
    pub width: u32,
    pub height: u32,
}

impl RgbaFrame {
    pub const BYTES_PER_PIXEL: usize = 4;

    pub open spec fn spec_bounds_at(&self, origin_x: i32, origin_y: i32) -> MonitorCaptureBounds {
        MonitorCaptureBounds { origin_x, origin_y, width: self.width, height: self.height }
    }

    pub open spec fn spec_expected_byte_len(&self) -> Option<usize> {
        self.spec_bounds_at(0, 0).spec_rgba_byte_len()
    }

    pub open spec fn spec_is_tightly_packed_rgba(&self) -> bool {
        self.spec_expected_byte_len() == Some(self.bytes@.len() as usize)
    }

    /// `Ok` exactly when the byte count is `width * height * 4`; otherwise the error
    /// names the bounds that overflow or the length that was expected.
    pub open spec fn spec_validate(&self) -> Result<(), CaptureError> {
        let bounds = self.spec_bounds_at(0, 0);
        match bounds.spec_rgba_byte_len() {
            None => Err(CaptureError::InvalidBounds(bounds)),
            Some(expected) => if self.bytes@.len() != expected {
                Err(
                    CaptureError::InvalidFrameLength {
                        expected,
                        actual: self.bytes@.len() as usize,
                        bounds,
                    },
                )
            } else {
                Ok(())
            },
        }
    }

    pub fn new(width: u32, height: u32, bytes: Vec<u8>) -> (r: Result<Self, CaptureError>)
        ensures
            match r {
                Ok(frame) => frame.width == width && frame.height == height && frame.bytes@
                    == bytes@ && frame.spec_is_tightly_packed_rgba(),
                Err(e) => (RgbaFrame { bytes, width, height }).spec_validate() == Err::<
                    (),
                    CaptureError,
                >(e),
            },
            r is Ok <==> (RgbaFrame { bytes, width, height }).spec_validate() is Ok,
    {
        let frame = Self { bytes, width, height };
        match frame.validate() {
            Ok(()) => Ok(frame),
            Err(e) => Err(e),
        }
    }

    pub fn from_bounds(bounds: MonitorCaptureBounds, bytes: Vec<u8>) -> (r: Result<
        Self,
        CaptureError,
    >)
        ensures
            match r {
                Ok(frame) => frame.width == bounds.width && frame.height == bounds.height
                    && frame.bytes@ == bytes@ && frame.spec_is_tightly_packed_rgba(),
                Err(e) => (RgbaFrame { bytes, width: bounds.width, height: bounds.height })
                    .spec_validate() == Err::<(), CaptureError>(e),
            },
            r is Ok <==> (RgbaFrame {
                bytes,
                width: bounds.width,
                height: bounds.height,
            }).spec_validate() is Ok,
    {
        Self::new(bounds.width, bounds.height, bytes)
    }

    pub fn bounds_at(&self, origin_x: i32, origin_y: i32) -> (r: MonitorCaptureBounds)
        ensures
            r == self.spec_bounds_at(origin_x, origin_y),
    {
        MonitorCaptureBounds::new(origin_x, origin_y, self.width, self.height)
    }

    pub fn byte_len(&self) -> (r: usize)
        ensures
            r == self.bytes@.len(),
    {
        self.bytes.len()
    }

    pub fn expected_byte_len(&self) -> (r: Option<usize>)
        ensures
            r == self.spec_expected_byte_len(),
    {
        self.bounds_at(0, 0).rgba_byte_len()
    }

    pub fn is_empty(&self) -> (r: bool)
        ensures
            r == (self.bytes@.len() == 0 || self.width == 0 || self.height == 0),
    {
        self.bytes.len() == 0 || self.width == 0 || self.height == 0
    }

    pub fn is_tightly_packed_rgba(&self) -> (r: bool)
        ensures
            r == self.spec_is_tightly_packed_rgba(),
    {
        match self.expected_byte_len() {
            Some(expected) => expected == self.bytes.len(),
            None => false,
        }
    }

    pub fn validate(&self) -> (r: Result<(), CaptureError>)
        ensures
            r == self.spec_validate(),
    {
        let bounds = self.bounds_at(0, 0);
        let expected = match bounds.rgba_byte_len() {
            Some(expected) => expected,
            None => return Err(CaptureError::InvalidBounds(bounds)),
        };
        if self.bytes.len() != expected {
            return Err(
                CaptureError::InvalidFrameLength { expected, actual: self.bytes.len(), bounds },
            );
        }
        Ok(())
    }

    pub fn into_bytes(self) -> (r: Vec<u8>)
        ensures
            r@ == self.bytes@,
    {
        self.bytes
    }
}

/// Why a capture did not produce a frame.
#[derive(Debug, Clone, PartialEq, Eq)]
pub enum CaptureError {
    BackendUnavailable { backend: CaptureBackendKind, reason: String },
    InvalidBounds(MonitorCaptureBounds),
    InvalidFrameLength { expected: usize, actual: usize, bounds: MonitorCaptureBounds },
    ProtectedContent { backend: CaptureBackendKind, bounds: MonitorCaptureBounds },
    ReadbackFailed { backend: CaptureBackendKind, reason: String },
}

impl CaptureError {
    /// The human-readable description of the error.
    pub open spec fn spec_message(&self) -> Seq<char> {
        match self {
            CaptureError::BackendUnavailable { backend, reason } => "capture backend "@
                + backend.spec_name() + " unavailable: "@ + reason@,
            CaptureError::InvalidBounds(bounds) => "invalid capture bounds: x="@ + signed_decimal(
                bounds.origin_x as int,
            ) + ", y="@ + signed_decimal(bounds.origin_y as int) + ", width="@ + decimal(
                bounds.width as nat,
            ) + ", height="@ + decimal(bounds.height as nat),
            CaptureError::InvalidFrameLength { expected, actual, bounds } =>
                "invalid rgba frame length: expected "@ + decimal(*expected as nat) + ", got "@
                + decimal(*actual as nat) + " for "@ + decimal(bounds.width as nat) + "x"@
                + decimal(bounds.height as nat),
            CaptureError::ProtectedContent { backend, bounds } => "capture backend "@
                + backend.spec_name() + " returned protected content for "@ + decimal(
                bounds.width as nat,
            ) + "x"@ + decimal(bounds.height as nat),
            CaptureError::ReadbackFailed { backend, reason } => "capture backend "@
                + backend.spec_name() + " readback failed: "@ + reason@,
        }
    }

    /// The display text of the error.
    pub fn to_string(&self) -> (r: String)
        ensures
            r@ == self.spec_message(),
    {
        let mut s = String::new();
        match self {
            CaptureError::BackendUnavailable { backend, reason } => {
                s.append("capture backend ");
                s.append(backend.name());
                s.append(" unavailable: ");
                s.append(reason.as_str());
            },
            CaptureError::InvalidBounds(bounds) => {
                s.append("invalid capture bounds: x=");
                push_i64(&mut s, bounds.origin_x as i64);
                s.append(", y=");
                push_i64(&mut s, bounds.origin_y as i64);
                s.append(", width=");
                push_u64(&mut s, bounds.width as u64);
                s.append(", height=");
                push_u64(&mut s, bounds.height as u64);
            },
            CaptureError::InvalidFrameLength { expected, actual, bounds } => {
                s.append("invalid rgba frame length: expected ");
                push_u64(&mut s, *expected as u64);
                s.append(", got ");
                push_u64(&mut s, *actual as u64);
                s.append(" for ");
                push_u64(&mut s, bounds.width as u64);
                s.append("x");
                push_u64(&mut s, bounds.height as u64);
            },
            CaptureError::ProtectedContent { backend, bounds } => {
                s.append("capture backend ");
                s.append(backend.name());
                s.append(" returned protected content for ");
                push_u64(&mut s, bounds.width as u64);
                s.append("x");
                push_u64(&mut s, bounds.height as u64);
            },
            CaptureError::ReadbackFailed { backend, reason } => {
                s.append("capture backend ");
                s.append(backend.name());
                s.append(" readback failed: ");
                s.append(reason.as_str());
            },
        }
        proof {
            assert(s@ =~= self.spec_message());
        }
        s
    }
}

pub type CaptureResult<T> = Result<T, CaptureError>;

/// A source of desktop frames; implemented by each capture backend.
pub trait CaptureFrameSource {
    fn backend_kind(&self) -> CaptureBackendKind;

    fn backend_contract(&self) -> CaptureBackendContract {
        self.backend_kind().contract()
    }

    fn capture_bounds(&self) -> Option<MonitorCaptureBounds> {
        None
    }

    fn capture_frame(&mut self, bounds: MonitorCaptureBounds) -> CaptureResult<RgbaFrame>;
}

} // verus!
