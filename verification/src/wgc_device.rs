//! The Direct3D device a Windows Graphics Capture session renders into, and the texture
//! frames it hands back.
use vstd::prelude::*;

use crate::d3d11_frame::{
    D3d11CpuAccessMode, D3d11FrameSource, D3d11RawHandle, D3d11TextureFrame, D3d11TextureFrameMetadata,
    D3d11TextureHandle, D3d11TextureUsage,
};
use crate::dxgi_texture::{
    dxgi_format_text, dxgi_frame_format, spec_capture_texture_metadata, spec_dxgi_format_text,
    spec_dxgi_frame_format,
};
use crate::gpu_device::{D3d11DeviceCreateOptions, D3d11DeviceDiagnostics, D3d11DeviceError, D3d11DeviceHandle};
use crate::output::SelectedImageContract;
use crate::text::{decimal, push_u64};

verus! {

/// Why the WGC device bridge or a WGC texture could not be used.
#[derive(Debug, Clone, PartialEq, Eq)]
pub enum WgcDeviceBridgeError {
    UnsupportedPlatform(&'static str),
    D3d11Device(String),
    WinRtDevice(String),
    SurfaceInterop(String),
    EmptyDimensions { width: u32, height: u32 },
    UnsupportedFormat { format: String },
    MissingTextureHandle,
    InvalidFrameContract { reason: String },
}

impl WgcDeviceBridgeError {
    pub open spec fn spec_message(&self) -> Seq<char> {
        match self {
            WgcDeviceBridgeError::UnsupportedPlatform(reason) => reason@,
            WgcDeviceBridgeError::D3d11Device(reason) => "WGC D3D11 device failed: "@ + reason@,
            WgcDeviceBridgeError::WinRtDevice(reason) => "WGC WinRT device bridge failed: "@ + reason@,
            WgcDeviceBridgeError::SurfaceInterop(reason) => "WGC surface interop failed: "@ + reason@,
            WgcDeviceBridgeError::EmptyDimensions { width, height } =>
                "empty WGC texture dimensions: "@ + decimal(*width as nat) + "x"@ + decimal(
                *height as nat,
            ),
            WgcDeviceBridgeError::UnsupportedFormat { format } => "unsupported WGC texture format: "@
                + format@,
            WgcDeviceBridgeError::MissingTextureHandle => "WGC texture handle is missing"@,
            WgcDeviceBridgeError::InvalidFrameContract { reason } =>
                "invalid WGC texture frame contract: "@ + reason@,
        }
    }

    pub fn to_string(&self) -> (r: String)
        ensures
            r@ == self.spec_message(),
    {
        let mut s = String::new();
        match self {
            WgcDeviceBridgeError::UnsupportedPlatform(reason) => {
                s.append(reason);
            },
            WgcDeviceBridgeError::D3d11Device(reason) => {
                s.append("WGC D3D11 device failed: ");
                s.append(reason.as_str());
            },
            WgcDeviceBridgeError::WinRtDevice(reason) => {
                s.append("WGC WinRT device bridge failed: ");
                s.append(reason.as_str());
            },
            WgcDeviceBridgeError::SurfaceInterop(reason) => {
                s.append("WGC surface interop failed: ");
                s.append(reason.as_str());
            },
            WgcDeviceBridgeError::EmptyDimensions { width, height } => {
                s.append("empty WGC texture dimensions: ");
                push_u64(&mut s, *width as u64);
                s.append("x");
                push_u64(&mut s, *height as u64);
            },
            WgcDeviceBridgeError::UnsupportedFormat { format } => {
                s.append("unsupported WGC texture format: ");
                s.append(format.as_str());
            },
            WgcDeviceBridgeError::MissingTextureHandle => {
                s.append("WGC texture handle is missing");
            },
            WgcDeviceBridgeError::InvalidFrameContract { reason } => {
                s.append("invalid WGC texture frame contract: ");
                s.append(reason.as_str());
            },
        }
        proof {
            assert(s@ =~= self.spec_message());
        }
        s
    }

    /// The bridge error of a failed D3D11 device creation, naming the device error.
    pub fn from_device_error(error: D3d11DeviceError) -> (r: Self)
        ensures
            r matches WgcDeviceBridgeError::D3d11Device(reason) && reason@ == error.spec_message(),
    {
        WgcDeviceBridgeError::D3d11Device(error.to_string())
    }
}

/// The D3D11 device that a WGC session captures into.
#[derive(Debug)]
pub struct WgcDirect3DDeviceBridge {
    pub d3d11: D3d11DeviceHandle,
}

fn copy_device_diagnostics(d: &D3d11DeviceDiagnostics) -> (r: D3d11DeviceDiagnostics)
    ensures
        r == *d,
{
    D3d11DeviceDiagnostics {
        adapter_preference: d.adapter_preference,
        adapter_label: d.adapter_label.clone(),
        feature_level: d.feature_level,
        debug_layer_requested: d.debug_layer_requested,
        used_default_adapter: d.used_default_adapter,
        fallback_reason: match &d.fallback_reason {
            Some(reason) => Some(reason.clone()),
            None => None,
        },
    }
}

impl WgcDirect3DDeviceBridge {
    pub fn diagnostics(&self) -> (r: D3d11DeviceDiagnostics)
        ensures
            r == self.d3d11.diagnostics,
    {
        copy_device_diagnostics(&self.d3d11.diagnostics)
    }
}

/// What probing the device bridge showed.
#[derive(Debug, Clone)]
pub struct WgcDeviceBridgeProbe {
    pub attempted: bool,
    pub ok: bool,
    pub created_d3d11_device: bool,
    pub created_direct3d_device: bool,
    pub diagnostics: Option<D3d11DeviceDiagnostics>,
    pub error: Option<String>,
}

/// Creates the device bridge. This build has no Direct3D, so it is always the
/// unsupported-platform error.
pub fn create_wgc_direct3d_device(options: D3d11DeviceCreateOptions) -> (r: Result<
    WgcDirect3DDeviceBridge,
    WgcDeviceBridgeError,
>)
    ensures
        r matches Err(WgcDeviceBridgeError::UnsupportedPlatform(reason)) && reason@
            == "WGC Direct3D device bridge requires Windows"@,
{
    Err(WgcDeviceBridgeError::UnsupportedPlatform("WGC Direct3D device bridge requires Windows"))
}

/// The probe that an attempt to create the device bridge gives.
pub fn wgc_device_bridge_probe(created: Result<WgcDirect3DDeviceBridge, WgcDeviceBridgeError>) -> (r:
    WgcDeviceBridgeProbe)
    ensures
        r.attempted,
        match created {
            Ok(bridge) => r.ok && r.created_d3d11_device && r.created_direct3d_device
                && r.diagnostics == Some(bridge.d3d11.diagnostics) && r.error is None,
            Err(e) => !r.ok && !r.created_d3d11_device && !r.created_direct3d_device
                && r.diagnostics is None && (r.error matches Some(text) && text@ == e.spec_message()),
        },
{
    match created {
        Ok(bridge) => WgcDeviceBridgeProbe {
            attempted: true,
            ok: true,
            created_d3d11_device: true,
            created_direct3d_device: true,
            diagnostics: Some(bridge.diagnostics()),
            error: None,
        },
        Err(error) => WgcDeviceBridgeProbe {
            attempted: true,
            ok: false,
            created_d3d11_device: false,
            created_direct3d_device: false,
            diagnostics: None,
            error: Some(error.to_string()),
        },
    }
}

/// Probes the device bridge with the default device options.
pub fn probe_wgc_direct3d_device_bridge() -> (r: WgcDeviceBridgeProbe)
    ensures
        r.attempted && !r.ok,
        !r.created_d3d11_device && !r.created_direct3d_device,
        r.diagnostics is None,
        r.error matches Some(text) && text@ == "WGC Direct3D device bridge requires Windows"@,
{
    wgc_device_bridge_probe(create_wgc_direct3d_device(D3d11DeviceCreateOptions::default()))
}

/// A texture frame a WGC session acquired, with the selected image read back from it
/// once there is one. The texture object itself stays with the platform code.
#[derive(Debug)]
pub struct WgcAcquiredTextureFrame {
    frame: D3d11TextureFrame,
    selected_image: Option<SelectedImageContract>,
}

impl WgcAcquiredTextureFrame {
    pub closed spec fn spec_frame(&self) -> D3d11TextureFrame {
        self.frame
    }

    pub closed spec fn spec_selected_image(&self) -> Option<SelectedImageContract> {
        self.selected_image
    }

    pub fn frame_contract(&self) -> (r: &D3d11TextureFrame)
        ensures
            *r == self.spec_frame(),
    {
        &self.frame
    }

    pub fn into_frame_contract(self) -> (r: D3d11TextureFrame)
        ensures
            r == self.spec_frame(),
    {
        self.frame
    }

    pub fn selected_image(&self) -> (r: Option<&SelectedImageContract>)
        ensures
            match self.spec_selected_image() {
                Some(image) => r == Some(&image),
                None => r is None,
            },
    {
        match &self.selected_image {
            Some(image) => Some(image),
            None => None,
        }
    }

    pub fn set_selected_image(&mut self, selected_image: SelectedImageContract)
        ensures
            final(self).spec_frame() == old(self).spec_frame(),
            final(self).spec_selected_image() == Some(selected_image),
    {
        self.selected_image = Some(selected_image);
    }
}

/// Describes a WGC texture from its description: its size, its DXGI format code and its
/// native pointer value. Only the two 8-bit formats are accepted, and a null pointer has
/// no texture.
pub fn describe_wgc_d3d11_texture_2d(
    width: u32,
    height: u32,
    format_code: i32,
    raw_pointer: u64,
    frame_id: u64,
) -> (r: Result<WgcAcquiredTextureFrame, WgcDeviceBridgeError>)
    ensures
        spec_dxgi_frame_format(format_code) is None ==> (r matches Err(
            WgcDeviceBridgeError::UnsupportedFormat { format },
        ) && format@ == spec_dxgi_format_text(format_code)),
        spec_dxgi_frame_format(format_code) is Some && raw_pointer == 0 ==> r == Err::<
            WgcAcquiredTextureFrame,
            WgcDeviceBridgeError,
        >(WgcDeviceBridgeError::MissingTextureHandle),
        spec_dxgi_frame_format(format_code) is Some && raw_pointer != 0 && (width == 0 || height == 0)
            ==> r matches Err(WgcDeviceBridgeError::InvalidFrameContract { .. }),
        spec_dxgi_frame_format(format_code) is Some && raw_pointer != 0 && width != 0 && height != 0
            ==> r is Ok,
        r matches Ok(acquired) ==> {
            &&& spec_dxgi_frame_format(format_code) matches Some(format)
            &&& acquired.spec_frame().metadata.texture matches Some(texture)
            &&& texture.raw.spec_get() == raw_pointer
            &&& acquired.spec_frame().metadata == spec_capture_texture_metadata(
                D3d11FrameSource::WindowsGraphicsCapture,
                width,
                height,
                format,
                texture.raw,
                frame_id,
            )
            &&& acquired.spec_frame().readback_bytes is None
            &&& acquired.spec_selected_image() is None
        },
{
    let format = match dxgi_frame_format(format_code) {
        Some(format) => format,
        None => {
            return Err(WgcDeviceBridgeError::UnsupportedFormat { format: dxgi_format_text(format_code) });
        },
    };
    if raw_pointer == 0 {
        return Err(WgcDeviceBridgeError::MissingTextureHandle);
    }
    let raw_handle = D3d11RawHandle::new(raw_pointer);
    let metadata = D3d11TextureFrameMetadata::new(
        D3d11FrameSource::WindowsGraphicsCapture,
        width,
        height,
        format,
    ).with_texture(
        D3d11TextureHandle::new(raw_handle, D3d11TextureUsage::CaptureTexture, D3d11CpuAccessMode::NoAccess),
    ).with_frame_id(frame_id);
    let frame = match D3d11TextureFrame::new(metadata, None) {
        Ok(frame) => frame,
        Err(error) => {
            return Err(WgcDeviceBridgeError::InvalidFrameContract { reason: error.to_string() });
        },
    };
    Ok(WgcAcquiredTextureFrame { frame, selected_image: None })
}

} // verus!
