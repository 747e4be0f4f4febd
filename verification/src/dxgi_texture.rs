//! Describing a captured DXGI texture as a GPU texture frame contract.
use vstd::prelude::*;

use crate::d3d11_frame::{
    D3d11CpuAccessMode, D3d11FrameSource, D3d11RawHandle, D3d11TextureFrame, D3d11TextureFrameFormat,
    D3d11TextureFrameMetadata, D3d11TextureHandle, D3d11TextureUsage,
};
use crate::text::{push_i64, signed_decimal, decimal, push_u64};

verus! {

/// `DXGI_FORMAT_R8G8B8A8_UNORM`.
pub const DXGI_FORMAT_R8G8B8A8_UNORM: i32 = 28;

/// `DXGI_FORMAT_B8G8R8A8_UNORM`.
pub const DXGI_FORMAT_B8G8R8A8_UNORM: i32 = 87;

/// The frame format of a DXGI format code, for the two 8-bit formats a capture uses.
pub open spec fn spec_dxgi_frame_format(code: i32) -> Option<D3d11TextureFrameFormat> {
    if code == DXGI_FORMAT_B8G8R8A8_UNORM {
        Some(D3d11TextureFrameFormat::Bgra8Unorm)
    } else if code == DXGI_FORMAT_R8G8B8A8_UNORM {
        Some(D3d11TextureFrameFormat::Rgba8Unorm)
    } else {
        None
    }
}

pub fn dxgi_frame_format(code: i32) -> (r: Option<D3d11TextureFrameFormat>)
    ensures
        r == spec_dxgi_frame_format(code),
{
    if code == DXGI_FORMAT_B8G8R8A8_UNORM {
        Some(D3d11TextureFrameFormat::Bgra8Unorm)
    } else if code == DXGI_FORMAT_R8G8B8A8_UNORM {
        Some(D3d11TextureFrameFormat::Rgba8Unorm)
    } else {
        None
    }
}

/// How a DXGI format code prints in diagnostics: `DXGI_FORMAT(code)`.
pub open spec fn spec_dxgi_format_text(code: i32) -> Seq<char> {
    "DXGI_FORMAT("@ + signed_decimal(code as int) + ")"@
}

pub fn dxgi_format_text(code: i32) -> (r: String)
    ensures
        r@ == spec_dxgi_format_text(code),
{
    let mut s = String::from_str("DXGI_FORMAT(");
    push_i64(&mut s, code as i64);
    s.append(")");
    s
}

/// Why a captured texture could not be described.
#[derive(Debug, Clone, PartialEq, Eq)]
pub enum DxgiTextureFrameError {
    EmptyDimensions { width: u32, height: u32 },
    UnsupportedFormat { format: String },
    MissingTextureHandle,
    InvalidFrameContract { reason: String },
}

impl DxgiTextureFrameError {
    pub open spec fn spec_message(&self) -> Seq<char> {
        match self {
            DxgiTextureFrameError::EmptyDimensions { width, height } =>
                "empty DXGI texture dimensions: "@ + decimal(*width as nat) + "x"@ + decimal(
                *height as nat,
            ),
            DxgiTextureFrameError::UnsupportedFormat { format } => "unsupported DXGI texture format: "@
                + format@,
            DxgiTextureFrameError::MissingTextureHandle => "DXGI texture handle is missing"@,
            DxgiTextureFrameError::InvalidFrameContract { reason } =>
                "invalid DXGI texture frame contract: "@ + reason@,
        }
    }

    pub fn to_string(&self) -> (r: String)
        ensures
            r@ == self.spec_message(),
    {
        let mut s = String::new();
        match self {
            DxgiTextureFrameError::EmptyDimensions { width, height } => {
                s.append("empty DXGI texture dimensions: ");
                push_u64(&mut s, *width as u64);
                s.append("x");
                push_u64(&mut s, *height as u64);
            },
            DxgiTextureFrameError::UnsupportedFormat { format } => {
                s.append("unsupported DXGI texture format: ");
                s.append(format.as_str());
            },
            DxgiTextureFrameError::MissingTextureHandle => {
                s.append("DXGI texture handle is missing");
            },
            DxgiTextureFrameError::InvalidFrameContract { reason } => {
                s.append("invalid DXGI texture frame contract: ");
                s.append(reason.as_str());
            },
        }
        proof {
            assert(s@ =~= self.spec_message());
        }
        s
    }
}

/// What the texture description of a captured frame says.
#[derive(Debug, Clone, Copy, PartialEq, Eq, Structural)]
pub struct DxgiTextureDescriptor {
    pub width: u32,
    pub height: u32,
    pub format: D3d11TextureFrameFormat,
    pub raw_handle: D3d11RawHandle,
    pub frame_id: u64,
}

impl DxgiTextureDescriptor {
    pub fn new(
        width: u32,
        height: u32,
        format: D3d11TextureFrameFormat,
        raw_handle: D3d11RawHandle,
        frame_id: u64,
    ) -> (r: Self)
        ensures
            r == (DxgiTextureDescriptor { width, height, format, raw_handle, frame_id }),
    {
        Self { width, height, format, raw_handle, frame_id }
    }
}

/// The metadata of a captured texture that stays on the GPU: a capture texture the CPU
/// cannot map, with the frame's id.
pub open spec fn spec_capture_texture_metadata(
    source: D3d11FrameSource,
    width: u32,
    height: u32,
    format: D3d11TextureFrameFormat,
    raw_handle: D3d11RawHandle,
    frame_id: u64,
) -> D3d11TextureFrameMetadata {
    D3d11TextureFrameMetadata {
        texture: Some(
            D3d11TextureHandle {
                raw: raw_handle,
                usage: D3d11TextureUsage::CaptureTexture,
                cpu_access: D3d11CpuAccessMode::NoAccess,
            },
        ),
        frame_id,
        ..D3d11TextureFrameMetadata::spec_new(source, width, height, format)
    }
}

/// The frame contract of a captured DXGI texture: a GPU texture with no CPU readback.
/// Empty dimensions are refused before any contract is built.
pub fn build_dxgi_texture_frame_contract(descriptor: DxgiTextureDescriptor) -> (r: Result<
    D3d11TextureFrame,
    DxgiTextureFrameError,
>)
    ensures
        descriptor.width == 0 || descriptor.height == 0 ==> r == Err::<
            D3d11TextureFrame,
            DxgiTextureFrameError,
        >(DxgiTextureFrameError::EmptyDimensions { width: descriptor.width, height: descriptor.height }),
        descriptor.width != 0 && descriptor.height != 0 ==> (r matches Ok(frame) && frame.metadata
            == spec_capture_texture_metadata(
            D3d11FrameSource::DxgiDesktopDuplication,
            descriptor.width,
            descriptor.height,
            descriptor.format,
            descriptor.raw_handle,
            descriptor.frame_id,
        ) && frame.readback_bytes is None),
{
    if descriptor.width == 0 || descriptor.height == 0 {
        return Err(
            DxgiTextureFrameError::EmptyDimensions { width: descriptor.width, height: descriptor.height },
        );
    }
    let texture = D3d11TextureHandle::new(
        descriptor.raw_handle,
        D3d11TextureUsage::CaptureTexture,
        D3d11CpuAccessMode::NoAccess,
    );
    let metadata = D3d11TextureFrameMetadata::new(
        D3d11FrameSource::DxgiDesktopDuplication,
        descriptor.width,
        descriptor.height,
        descriptor.format,
    ).with_texture(texture).with_frame_id(descriptor.frame_id);
    match D3d11TextureFrame::new(metadata, None) {
        Ok(frame) => Ok(frame),
        Err(error) => Err(DxgiTextureFrameError::InvalidFrameContract { reason: error.to_string() }),
    }
}

/// A captured texture frame. The texture object itself stays with the platform code
/// that acquired it; the contract describes it.
#[derive(Debug, Clone)]
pub struct DxgiAcquiredTextureFrame {
    frame: D3d11TextureFrame,
}

impl DxgiAcquiredTextureFrame {
    pub closed spec fn spec_frame(&self) -> D3d11TextureFrame {
        self.frame
    }

    pub fn metadata(&self) -> (r: D3d11TextureFrameMetadata)
        ensures
            r == self.spec_frame().metadata,
    {
        self.frame.metadata
    }

    pub fn frame_contract(&self) -> (r: &D3d11TextureFrame)
        ensures
            *r == self.spec_frame(),
    {
        &self.frame
    }

    pub fn into_frame_contract(self) -> (r: D3d11TextureFrame)
        ensures
            r == self.spec_frame(),
    {
        self.frame
    }
}

/// Describes a captured texture from its description: its size, its DXGI format code and
/// its native pointer value. Only the two 8-bit formats are accepted, and a null pointer
/// has no texture.
pub fn describe_dxgi_d3d11_texture_2d(
    width: u32,
    height: u32,
    format_code: i32,
    raw_pointer: u64,
    frame_id: u64,
) -> (r: Result<DxgiAcquiredTextureFrame, DxgiTextureFrameError>)
    ensures
        spec_dxgi_frame_format(format_code) is None ==> (r matches Err(
            DxgiTextureFrameError::UnsupportedFormat { format },
        ) && format@ == spec_dxgi_format_text(format_code)),
        spec_dxgi_frame_format(format_code) is Some && raw_pointer == 0 ==> r == Err::<
            DxgiAcquiredTextureFrame,
            DxgiTextureFrameError,
        >(DxgiTextureFrameError::MissingTextureHandle),
        spec_dxgi_frame_format(format_code) is Some && raw_pointer != 0 && (width == 0 || height == 0)
            ==> r == Err::<DxgiAcquiredTextureFrame, DxgiTextureFrameError>(
            DxgiTextureFrameError::EmptyDimensions { width, height },
        ),
        r matches Ok(acquired) ==> {
            &&& spec_dxgi_frame_format(format_code) matches Some(format)
            &&& acquired.spec_frame().metadata.texture matches Some(texture)
            &&& texture.raw.spec_get() == raw_pointer
            &&& acquired.spec_frame().metadata == spec_capture_texture_metadata(
                D3d11FrameSource::DxgiDesktopDuplication,
                width,
                height,
                format,
                texture.raw,
                frame_id,
            )
            &&& acquired.spec_frame().readback_bytes is None
        },
        spec_dxgi_frame_format(format_code) is Some && raw_pointer != 0 && width != 0 && height != 0
            ==> r is Ok,
{
    let format = match dxgi_frame_format(format_code) {
        Some(format) => format,
        None => {
            return Err(DxgiTextureFrameError::UnsupportedFormat { format: dxgi_format_text(format_code) });
        },
    };
    if raw_pointer == 0 {
        return Err(DxgiTextureFrameError::MissingTextureHandle);
    }
    let raw_handle = D3d11RawHandle::new(raw_pointer);
    let frame = match build_dxgi_texture_frame_contract(
        DxgiTextureDescriptor::new(width, height, format, raw_handle, frame_id),
    ) {
        Ok(frame) => frame,
        Err(e) => {
            return Err(e);
        },
    };
    Ok(DxgiAcquiredTextureFrame { frame })
}

} // verus!
