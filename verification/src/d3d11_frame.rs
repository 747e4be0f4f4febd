//! The contract of a captured D3D11 texture frame and its CPU readback.
use vstd::prelude::*;

use crate::text::{decimal, push_u64};

verus! {

pub const D3D11_TEXTURE_FRAME_CONTRACT_VERSION: u16 = 1;

pub const D3D11_RGBA_BYTES_PER_PIXEL: u32 = 4;

/// The pixel layouts a readback can hold; both are four bytes per pixel.
#[derive(Debug, Clone, Copy, PartialEq, Eq, Structural)]
pub enum D3d11TextureFrameFormat {
    Bgra8Unorm,
    Rgba8Unorm,
}

impl D3d11TextureFrameFormat {
    pub open spec fn spec_bytes_per_pixel(self) -> u32 {
        4
    }

    pub fn bytes_per_pixel(self) -> (r: u32)
        ensures
            r == self.spec_bytes_per_pixel(),
    {
        match self {
            D3d11TextureFrameFormat::Bgra8Unorm | D3d11TextureFrameFormat::Rgba8Unorm =>
                D3D11_RGBA_BYTES_PER_PIXEL,
        }
    }

    /// The variant's name, as `Debug` prints it.
    pub open spec fn spec_debug_name(self) -> Seq<char> {
        match self {
            D3d11TextureFrameFormat::Bgra8Unorm => "Bgra8Unorm"@,
            D3d11TextureFrameFormat::Rgba8Unorm => "Rgba8Unorm"@,
        }
    }

    pub fn debug_name(self) -> (r: &'static str)
        ensures
            r@ == self.spec_debug_name(),
    {
        match self {
            D3d11TextureFrameFormat::Bgra8Unorm => "Bgra8Unorm",
            D3d11TextureFrameFormat::Rgba8Unorm => "Rgba8Unorm",
        }
    }
}

/// Which capture API produced a frame.
#[derive(Debug, Clone, Copy, PartialEq, Eq, Structural)]
pub enum D3d11FrameSource {
    WindowsGraphicsCapture,
    DxgiDesktopDuplication,
    Unknown,
}

/// What a texture is used for.
#[derive(Debug, Clone, Copy, PartialEq, Eq, Structural)]
pub enum D3d11TextureUsage {
    CaptureTexture,
    SharedTexture,
    StagingReadback,
}

/// Whether the CPU may read a texture.
#[derive(Debug, Clone, Copy, PartialEq, Eq, Structural)]
pub enum D3d11CpuAccessMode {
    NoAccess,
    Read,
}

/// How a texture is shared between devices.
#[derive(Debug, Clone, Copy, PartialEq, Eq, Structural)]
pub enum D3d11SharedHandleKind {
    NotShared,
    SharedHandle,
    SharedNtHandle,
}

/// A non-zero native handle value.
#[derive(Debug, Clone, Copy, PartialEq, Eq, Structural, Hash)]
pub struct D3d11RawHandle(u64);

impl D3d11RawHandle {
    pub closed spec fn spec_get(self) -> u64 {
        self.0
    }

    #[verifier::type_invariant]
    spec fn is_nonzero(self) -> bool {
        self.0 != 0
    }

    pub fn new(raw: u64) -> (r: Self)
        requires
            raw != 0,
        ensures
            r.spec_get() == raw,
    {
        Self(raw)
    }

    pub fn get(self) -> (r: u64)
        ensures
            r == self.spec_get(),
            r != 0,
    {
        proof {
            use_type_invariant(&self);
        }
        self.0
    }
}

/// A texture handle with its usage and CPU access.
#[derive(Debug, Clone, Copy, PartialEq, Eq, Structural)]
pub struct D3d11TextureHandle {
    pub raw: D3d11RawHandle,
    pub usage: D3d11TextureUsage,
    pub cpu_access: D3d11CpuAccessMode,
}

impl D3d11TextureHandle {
    pub fn new(raw: D3d11RawHandle, usage: D3d11TextureUsage, cpu_access: D3d11CpuAccessMode) -> (r:
        Self)
        ensures
            r == (D3d11TextureHandle { raw, usage, cpu_access }),
    {
        Self { raw, usage, cpu_access }
    }
}

/// How (and whether) a frame's texture is shared.
#[derive(Debug, Clone, Copy, PartialEq, Eq, Structural)]
pub struct D3d11SharedHandleMetadata {
    pub kind: D3d11SharedHandleKind,
    pub handle: Option<D3d11RawHandle>,
    pub keyed_mutex_required: bool,
    pub cross_adapter: bool,
}

impl D3d11SharedHandleMetadata {
    pub open spec fn spec_none() -> Self {
        D3d11SharedHandleMetadata {
            kind: D3d11SharedHandleKind::NotShared,
            handle: None,
            keyed_mutex_required: false,
            cross_adapter: false,
        }
    }

    pub open spec fn spec_is_shared(self) -> bool {
        !(self.kind is NotShared)
    }

    pub fn none() -> (r: Self)
        ensures
            r == Self::spec_none(),
    {
        Self {
            kind: D3d11SharedHandleKind::NotShared,
            handle: None,
            keyed_mutex_required: false,
            cross_adapter: false,
        }
    }

    pub fn shared(handle: D3d11RawHandle) -> (r: Self)
        ensures
            r == (D3d11SharedHandleMetadata {
                kind: D3d11SharedHandleKind::SharedHandle,
                handle: Some(handle),
                keyed_mutex_required: false,
                cross_adapter: false,
            }),
    {
        Self {
            kind: D3d11SharedHandleKind::SharedHandle,
            handle: Some(handle),
            keyed_mutex_required: false,
            cross_adapter: false,
        }
    }

    pub fn shared_nt(handle: D3d11RawHandle, keyed_mutex_required: bool) -> (r: Self)
        ensures
            r == (D3d11SharedHandleMetadata {
                kind: D3d11SharedHandleKind::SharedNtHandle,
                handle: Some(handle),
                keyed_mutex_required,
                cross_adapter: false,
            }),
    {
        Self {
            kind: D3d11SharedHandleKind::SharedNtHandle,
            handle: Some(handle),
            keyed_mutex_required,
            cross_adapter: false,
        }
    }

    pub fn is_shared(self) -> (r: bool)
        ensures
            r == self.spec_is_shared(),
    {
        match self.kind {
            D3d11SharedHandleKind::NotShared => false,
            _ => true,
        }
    }
}

/// The layout of a mapped staging texture.
#[derive(Debug, Clone, Copy, PartialEq, Eq, Structural)]
pub struct D3d11StagingReadbackMetadata {
    pub row_pitch: u32,
    pub depth_pitch: u32,
    pub byte_len: usize,
    pub is_mapped: bool,
}

impl D3d11StagingReadbackMetadata {
    /// Metadata of a staging texture of `height` rows of `row_pitch` bytes.
    pub open spec fn spec_new(width: u32, height: u32, row_pitch: u32, is_mapped: bool) -> Result<
        Self,
        D3d11FrameContractError,
    > {
        if width == 0 || height == 0 {
            Err(D3d11FrameContractError::EmptyDimensions { width, height })
        } else if row_pitch * height > u32::MAX || row_pitch * height > usize::MAX {
            Err(D3d11FrameContractError::PitchOverflow)
        } else {
            Ok(
                D3d11StagingReadbackMetadata {
                    row_pitch,
                    depth_pitch: (row_pitch * height) as u32,
                    byte_len: (row_pitch * height) as usize,
                    is_mapped,
                },
            )
        }
    }

    /// The pitches and length are large enough for a `width` x `height` image.
    pub open spec fn spec_validate(
        self,
        width: u32,
        height: u32,
        format: D3d11TextureFrameFormat,
    ) -> Result<(), D3d11FrameContractError> {
        let min_row = width * format.spec_bytes_per_pixel();
        let min_depth = self.row_pitch * height;
        if min_row > u32::MAX {
            Err(D3d11FrameContractError::PitchOverflow)
        } else if self.row_pitch < min_row {
            Err(
                D3d11FrameContractError::RowPitchTooSmall {
                    row_pitch: self.row_pitch,
                    minimum: min_row as u32,
                },
            )
        } else if min_depth > u32::MAX {
            Err(D3d11FrameContractError::PitchOverflow)
        } else if self.depth_pitch < min_depth {
            Err(
                D3d11FrameContractError::DepthPitchTooSmall {
                    depth_pitch: self.depth_pitch,
                    minimum: min_depth as u32,
                },
            )
        } else if min_depth > usize::MAX {
            Err(D3d11FrameContractError::PitchOverflow)
        } else if self.byte_len < min_depth {
            Err(
                D3d11FrameContractError::ByteLenTooSmall {
                    byte_len: self.byte_len,
                    minimum: min_depth as usize,
                },
            )
        } else {
            Ok(())
        }
    }

    /// The length of the image with the row padding removed.
    pub open spec fn spec_compact_byte_len(
        width: u32,
        height: u32,
        format: D3d11TextureFrameFormat,
    ) -> Result<usize, D3d11FrameContractError> {
        let row = width * format.spec_bytes_per_pixel();
        if row > u32::MAX || row * height > u32::MAX || row * height > usize::MAX {
            Err(D3d11FrameContractError::PitchOverflow)
        } else {
            Ok((row * height) as usize)
        }
    }

    pub fn new(width: u32, height: u32, row_pitch: u32, is_mapped: bool) -> (r: Result<
        Self,
        D3d11FrameContractError,
    >)
        ensures
            r == Self::spec_new(width, height, row_pitch, is_mapped),
    {
        if width == 0 || height == 0 {
            return Err(D3d11FrameContractError::EmptyDimensions { width, height });
        }
        let depth_pitch = match row_pitch.checked_mul(height) {
            Some(v) => v,
            None => return Err(D3d11FrameContractError::PitchOverflow),
        };
        let byte_len = depth_pitch as usize;
        Ok(Self { row_pitch, depth_pitch, byte_len, is_mapped })
    }

    pub fn validate(self, width: u32, height: u32, format: D3d11TextureFrameFormat) -> (r: Result<
        (),
        D3d11FrameContractError,
    >)
        ensures
            r == self.spec_validate(width, height, format),
    {
        let minimum_row_pitch = match width.checked_mul(format.bytes_per_pixel()) {
            Some(v) => v,
            None => return Err(D3d11FrameContractError::PitchOverflow),
        };
        if self.row_pitch < minimum_row_pitch {
            return Err(
                D3d11FrameContractError::RowPitchTooSmall {
                    row_pitch: self.row_pitch,
                    minimum: minimum_row_pitch,
                },
            );
        }
        let minimum_depth_pitch = match self.row_pitch.checked_mul(height) {
            Some(v) => v,
            None => return Err(D3d11FrameContractError::PitchOverflow),
        };
        if self.depth_pitch < minimum_depth_pitch {
            return Err(
                D3d11FrameContractError::DepthPitchTooSmall {
                    depth_pitch: self.depth_pitch,
                    minimum: minimum_depth_pitch,
                },
            );
        }
        let minimum_byte_len = minimum_depth_pitch as usize;
        if self.byte_len < minimum_byte_len {
            return Err(
                D3d11FrameContractError::ByteLenTooSmall {
                    byte_len: self.byte_len,
                    minimum: minimum_byte_len,
                },
            );
        }
        Ok(())
    }

    pub fn compact_byte_len(self, width: u32, height: u32, format: D3d11TextureFrameFormat) -> (r:
        Result<usize, D3d11FrameContractError>)
        ensures
            r == Self::spec_compact_byte_len(width, height, format),
    {
        let row_len = match width.checked_mul(format.bytes_per_pixel()) {
            Some(v) => v,
            None => return Err(D3d11FrameContractError::PitchOverflow),
        };
        let byte_len = match row_len.checked_mul(height) {
            Some(v) => v,
            None => return Err(D3d11FrameContractError::PitchOverflow),
        };
        Ok(byte_len as usize)
    }
}

/// Everything known about a captured frame apart from its bytes.
#[derive(Debug, Clone, Copy, PartialEq, Eq, Structural)]
pub struct D3d11TextureFrameMetadata {
    pub contract_version: u16,
    pub source: D3d11FrameSource,
    pub width: u32,
    pub height: u32,
    pub format: D3d11TextureFrameFormat,
    pub texture: Option<D3d11TextureHandle>,
    pub shared_handle: D3d11SharedHandleMetadata,
    pub staging_readback: Option<D3d11StagingReadbackMetadata>,
    pub frame_id: u64,
    pub capture_timestamp_100ns: Option<u64>,
}

impl D3d11TextureFrameMetadata {
    pub open spec fn spec_new(
        source: D3d11FrameSource,
        width: u32,
        height: u32,
        format: D3d11TextureFrameFormat,
    ) -> Self {
        D3d11TextureFrameMetadata {
            contract_version: 1,
            source,
            width,
            height,
            format,
            texture: None,
            shared_handle: D3d11SharedHandleMetadata::spec_none(),
            staging_readback: None,
            frame_id: 0,
            capture_timestamp_100ns: None,
        }
    }

    pub open spec fn spec_is_empty(self) -> bool {
        self.width == 0 || self.height == 0
    }

    /// Version, dimensions, shared handle and staging layout are consistent.
    pub open spec fn spec_validate(self) -> Result<(), D3d11FrameContractError> {
        if self.contract_version != 1 {
            Err(D3d11FrameContractError::UnsupportedContractVersion(self.contract_version))
        } else if self.spec_is_empty() {
            Err(D3d11FrameContractError::EmptyDimensions { width: self.width, height: self.height })
        } else if self.shared_handle.spec_is_shared() && self.shared_handle.handle is None {
            Err(D3d11FrameContractError::MissingSharedHandle)
        } else {
            match self.staging_readback {
                Some(staging) => staging.spec_validate(self.width, self.height, self.format),
                None => Ok(()),
            }
        }
    }

    pub fn new(
        source: D3d11FrameSource,
        width: u32,
        height: u32,
        format: D3d11TextureFrameFormat,
    ) -> (r: Self)
        ensures
            r == Self::spec_new(source, width, height, format),
    {
        Self {
            contract_version: D3D11_TEXTURE_FRAME_CONTRACT_VERSION,
            source,
            width,
            height,
            format,
            texture: None,
            shared_handle: D3d11SharedHandleMetadata::none(),
            staging_readback: None,
            frame_id: 0,
            capture_timestamp_100ns: None,
        }
    }

    pub fn with_texture(self, texture: D3d11TextureHandle) -> (r: Self)
        ensures
            r == (D3d11TextureFrameMetadata { texture: Some(texture), ..self }),
    {
        Self { texture: Some(texture), ..self }
    }

    pub fn with_shared_handle(self, shared_handle: D3d11SharedHandleMetadata) -> (r: Self)
        ensures
            r == (D3d11TextureFrameMetadata { shared_handle, ..self }),
    {
        Self { shared_handle, ..self }
    }

    pub fn with_staging_readback(self, staging_readback: D3d11StagingReadbackMetadata) -> (r: Self)
        ensures
            r == (D3d11TextureFrameMetadata { staging_readback: Some(staging_readback), ..self }),
    {
        Self { staging_readback: Some(staging_readback), ..self }
    }

    pub fn with_frame_id(self, frame_id: u64) -> (r: Self)
        ensures
            r == (D3d11TextureFrameMetadata { frame_id, ..self }),
    {
        Self { frame_id, ..self }
    }

    pub fn with_capture_timestamp_100ns(self, timestamp: u64) -> (r: Self)
        ensures
            r == (D3d11TextureFrameMetadata { capture_timestamp_100ns: Some(timestamp), ..self }),
    {
        Self { capture_timestamp_100ns: Some(timestamp), ..self }
    }

    pub fn is_empty(self) -> (r: bool)
        ensures
            r == self.spec_is_empty(),
    {
        self.width == 0 || self.height == 0
    }

    pub fn validate(self) -> (r: Result<(), D3d11FrameContractError>)
        ensures
            r == self.spec_validate(),
    {
        if self.contract_version != D3D11_TEXTURE_FRAME_CONTRACT_VERSION {
            return Err(D3d11FrameContractError::UnsupportedContractVersion(self.contract_version));
        }
        if self.is_empty() {
            return Err(
                D3d11FrameContractError::EmptyDimensions { width: self.width, height: self.height },
            );
        }
        if self.shared_handle.is_shared() && self.shared_handle.handle.is_none() {
            return Err(D3d11FrameContractError::MissingSharedHandle);
        }
        match self.staging_readback {
            Some(staging_readback) => staging_readback.validate(self.width, self.height, self.format),
            None => Ok(()),
        }
    }
}

/// The bytes of rows `0..rows`, each `row_len` bytes taken every `row_pitch` bytes.
pub open spec fn compact_rows(source: Seq<u8>, rows: nat, row_pitch: nat, row_len: nat) -> Seq<u8>
    decreases rows,
{
    if rows == 0 {
        Seq::empty()
    } else {
        let r = (rows - 1) as nat;
        compact_rows(source, r, row_pitch, row_len) + source.subrange(
            (r * row_pitch) as int,
            (r * row_pitch + row_len) as int,
        )
    }
}

/// A frame's metadata with the bytes read back from its staging texture, if any.
#[derive(Debug, Clone, PartialEq, Eq)]
pub struct D3d11TextureFrame {
    pub metadata: D3d11TextureFrameMetadata,
    pub readback_bytes: Option<Vec<u8>>,
}

impl D3d11TextureFrame {
    /// The readback is present, mapped, and as long as the staging layout says.
    pub open spec fn spec_validate_cpu_readback(&self) -> Result<(), D3d11FrameContractError> {
        match self.metadata.staging_readback {
            None => Err(D3d11FrameContractError::MissingStagingReadback),
            Some(staging) => if !staging.is_mapped {
                Err(D3d11FrameContractError::StagingReadbackNotMapped)
            } else {
                match self.readback_bytes {
                    None => Err(D3d11FrameContractError::MissingReadbackBytes),
                    Some(bytes) => if bytes@.len() < staging.byte_len {
                        Err(
                            D3d11FrameContractError::ByteLenTooSmall {
                                byte_len: bytes@.len() as usize,
                                minimum: staging.byte_len,
                            },
                        )
                    } else {
                        Ok(())
                    },
                }
            },
        }
    }

    /// The end of row `row` in the readback: `row * row_pitch + row_len`.
    pub open spec fn row_end(row: int, row_pitch: int, row_len: int) -> int {
        row * row_pitch + row_len
    }

    pub fn new(metadata: D3d11TextureFrameMetadata, readback_bytes: Option<Vec<u8>>) -> (r: Result<
        Self,
        D3d11FrameContractError,
    >)
        ensures
            match r {
                Ok(frame) => frame.metadata == metadata && frame.readback_bytes == readback_bytes,
                Err(_) => true,
            },
            r is Ok <==> (metadata.spec_validate() is Ok && match (
                metadata.staging_readback,
                readback_bytes,
            ) {
                (Some(staging), Some(bytes)) => bytes@.len() >= staging.byte_len,
                _ => true,
            }),
            metadata.spec_validate() is Err ==> r == Err::<Self, D3d11FrameContractError>(
                metadata.spec_validate()->Err_0,
            ),
            metadata.spec_validate() is Ok ==> match (metadata.staging_readback, readback_bytes) {
                (Some(staging), Some(bytes)) => bytes@.len() < staging.byte_len ==> r == Err::<
                    Self,
                    D3d11FrameContractError,
                >(
                    D3d11FrameContractError::ByteLenTooSmall {
                        byte_len: bytes@.len() as usize,
                        minimum: staging.byte_len,
                    },
                ),
                _ => true,
            },
    {
        match metadata.validate() {
            Ok(()) => {},
            Err(e) => return Err(e),
        }
        match (&metadata.staging_readback, &readback_bytes) {
            (Some(staging), Some(bytes)) => {
                if bytes.len() < staging.byte_len {
                    return Err(
                        D3d11FrameContractError::ByteLenTooSmall {
                            byte_len: bytes.len(),
                            minimum: staging.byte_len,
                        },
                    );
                }
            },
            _ => {},
        }
        Ok(Self { metadata, readback_bytes })
    }

    pub fn requires_gpu_texture(self) -> (r: bool)
        ensures
            r == (self.metadata.texture is Some || self.metadata.shared_handle.spec_is_shared()),
    {
        self.metadata.texture.is_some() || self.metadata.shared_handle.is_shared()
    }

    pub fn has_cpu_readback(self) -> (r: bool)
        ensures
            r == self.readback_bytes is Some,
    {
        self.readback_bytes.is_some()
    }

    pub fn validate_cpu_readback(&self) -> (r: Result<(), D3d11FrameContractError>)
        ensures
            r == self.spec_validate_cpu_readback(),
    {
        let staging = match self.metadata.staging_readback {
            Some(s) => s,
            None => return Err(D3d11FrameContractError::MissingStagingReadback),
        };
        if !staging.is_mapped {
            return Err(D3d11FrameContractError::StagingReadbackNotMapped);
        }
        let bytes = match &self.readback_bytes {
            Some(b) => b,
            None => return Err(D3d11FrameContractError::MissingReadbackBytes),
        };
        if bytes.len() < staging.byte_len {
            return Err(
                D3d11FrameContractError::ByteLenTooSmall {
                    byte_len: bytes.len(),
                    minimum: staging.byte_len,
                },
            );
        }
        Ok(())
    }

    /// The readback with each row's padding removed: `height` rows of `width * 4` bytes
    /// taken every `row_pitch` bytes. Fails on an invalid readback, an overflowing
    /// length, or (at the first such row) a row that reaches past the bytes.
    pub fn compact_readback_bytes(&self) -> (r: Result<Vec<u8>, D3d11FrameContractError>)
        ensures
            self.spec_validate_cpu_readback() is Err ==> r == Err::<Vec<u8>, D3d11FrameContractError>(
                self.spec_validate_cpu_readback()->Err_0,
            ),
            self.spec_validate_cpu_readback() is Ok ==> {
                let staging = self.metadata.staging_readback->Some_0;
                let source = self.readback_bytes->Some_0@;
                let width = self.metadata.width;
                let height = self.metadata.height;
                let row_len = width * 4;
                let pitch = staging.row_pitch as int;
                if D3d11StagingReadbackMetadata::spec_compact_byte_len(
                    width,
                    height,
                    self.metadata.format,
                ) is Err {
                    r == Err::<Vec<u8>, D3d11FrameContractError>(D3d11FrameContractError::PitchOverflow)
                } else if forall|row: int|
                    0 <= row < height ==> #[trigger] Self::row_end(row, pitch, row_len)
                        <= source.len() {
                    r matches Ok(v) && v@ == compact_rows(source, height as nat, pitch as nat, row_len as nat)
                } else {
                    exists|row: int|
                        {
                            &&& 0 <= row < height
                            &&& #[trigger] Self::row_end(row, pitch, row_len) > source.len()
                            &&& forall|earlier: int|
                                0 <= earlier < row ==> #[trigger] Self::row_end(earlier, pitch, row_len)
                                    <= source.len()
                            &&& if Self::row_end(row, pitch, row_len) > usize::MAX {
                                r == Err::<Vec<u8>, D3d11FrameContractError>(
                                    D3d11FrameContractError::PitchOverflow,
                                )
                            } else {
                                r == Err::<Vec<u8>, D3d11FrameContractError>(
                                    D3d11FrameContractError::ByteLenTooSmall {
                                        byte_len: source.len() as usize,
                                        minimum: Self::row_end(row, pitch, row_len) as usize,
                                    },
                                )
                            }
                        }
                }
            },
    {
        match self.validate_cpu_readback() {
            Ok(()) => {},
            Err(e) => return Err(e),
        }
        let staging = match self.metadata.staging_readback {
            Some(s) => s,
            None => return Err(D3d11FrameContractError::MissingStagingReadback),
        };
        let source = match &self.readback_bytes {
            Some(b) => b,
            None => return Err(D3d11FrameContractError::MissingReadbackBytes),
        };
        let row_len_u32 = match self.metadata.width.checked_mul(self.metadata.format.bytes_per_pixel()) {
            Some(v) => v,
            None => return Err(D3d11FrameContractError::PitchOverflow),
        };
        let row_len = row_len_u32 as usize;
        let height = self.metadata.height as usize;
        let row_pitch = staging.row_pitch as usize;
        match staging.compact_byte_len(self.metadata.width, self.metadata.height, self.metadata.format) {
            Ok(_) => {},
            Err(e) => return Err(e),
        }
        let ghost src = source@;
        let ghost pitch = row_pitch as int;
        let ghost len = row_len as int;
        let mut compact: Vec<u8> = Vec::new();
        let mut row: usize = 0;
        while row < height
            invariant
                self.spec_validate_cpu_readback() is Ok,
                self.metadata.staging_readback == Some(staging),
                self.readback_bytes is Some,
                self.readback_bytes->Some_0@ == src,
                D3d11StagingReadbackMetadata::spec_compact_byte_len(
                    self.metadata.width,
                    self.metadata.height,
                    self.metadata.format,
                ) is Ok,
                row_len == self.metadata.width * 4,
                height == self.metadata.height,
                row_pitch == staging.row_pitch,
                src == source@,
                pitch == row_pitch as int,
                len == row_len as int,
                row <= height,
                compact@ == compact_rows(src, row as nat, pitch as nat, len as nat),
                forall|earlier: int|
                    0 <= earlier < row ==> #[trigger] Self::row_end(earlier, pitch, len) <= src.len(),
            decreases height - row,
        {
            let source_len = source.len();
            proof {
                assert(src.len() == source_len as int);
            }
            let offset = match row.checked_mul(row_pitch) {
                Some(v) => v,
                None => {
                    proof {
                        assert(Self::row_end(row as int, pitch, len) > usize::MAX) by (nonlinear_arith)
                            requires
                                row * pitch > usize::MAX,
                                len >= 0,
                        ;
                        assert(Self::row_end(row as int, pitch, len) > src.len());
                    }
                    return Err(D3d11FrameContractError::PitchOverflow);
                },
            };
            let end = match offset.checked_add(row_len) {
                Some(v) => v,
                None => {
                    proof {
                        assert(Self::row_end(row as int, pitch, len) > usize::MAX);
                        assert(Self::row_end(row as int, pitch, len) > src.len());
                    }
                    return Err(D3d11FrameContractError::PitchOverflow);
                },
            };
            if end > source.len() {
                proof {
                    assert(Self::row_end(row as int, pitch, len) == end);
                    assert(Self::row_end(row as int, pitch, len) > src.len());
                }
                return Err(
                    D3d11FrameContractError::ByteLenTooSmall { byte_len: source.len(), minimum: end },
                );
            }
            let ghost before = compact@;
            let mut i: usize = offset;
            while i < end
                invariant
                    src == source@,
                    offset <= i <= end <= src.len(),
                    compact@ == before + src.subrange(offset as int, i as int),
                decreases end - i,
            {
                compact.push(source[i]);
                i = i + 1;
                proof {
                    assert(compact@ =~= before + src.subrange(offset as int, i as int));
                }
            }
            proof {
                assert(offset as int == (row as nat) * (pitch as nat));
                assert(end as int == (row as nat) * (pitch as nat) + (len as nat));
                assert(compact@ == compact_rows(src, (row + 1) as nat, pitch as nat, len as nat));
            }
            row = row + 1;
        }
        Ok(compact)
    }
}

/// Why a frame, its metadata or its readback breaks the contract.
#[derive(Debug, Clone, PartialEq, Eq)]
pub enum D3d11FrameContractError {
    UnsupportedContractVersion(u16),
    EmptyDimensions { width: u32, height: u32 },
    MissingSharedHandle,
    MissingStagingTexture,
    MissingStagingReadback,
    MissingReadbackBytes,
    StagingReadbackNotMapped,
    UnsupportedTextureFormat(String),
    SelectedRegionOutsideFrame,
    WindowsApi(String),
    PitchOverflow,
    RowPitchTooSmall { row_pitch: u32, minimum: u32 },
    DepthPitchTooSmall { depth_pitch: u32, minimum: u32 },
    ByteLenTooSmall { byte_len: usize, minimum: usize },
}

impl D3d11FrameContractError {
    pub open spec fn spec_message(&self) -> Seq<char> {
        match self {
            D3d11FrameContractError::UnsupportedContractVersion(version) =>
                "unsupported D3D11 frame contract version: "@ + decimal(*version as nat),
            D3d11FrameContractError::EmptyDimensions { width, height } =>
                "empty D3D11 texture frame dimensions: "@ + decimal(*width as nat) + "x"@ + decimal(
                    *height as nat,
                ),
            D3d11FrameContractError::MissingSharedHandle =>
                "D3D11 shared handle metadata has no handle"@,
            D3d11FrameContractError::MissingStagingTexture => "D3D11 staging texture was not returned"@,
            D3d11FrameContractError::MissingStagingReadback =>
                "D3D11 CPU readback requires staging metadata"@,
            D3d11FrameContractError::MissingReadbackBytes => "D3D11 CPU readback bytes are missing"@,
            D3d11FrameContractError::StagingReadbackNotMapped =>
                "D3D11 staging texture is not mapped for CPU readback"@,
            D3d11FrameContractError::PitchOverflow => "D3D11 staging readback pitch overflows"@,
            D3d11FrameContractError::RowPitchTooSmall { row_pitch, minimum } =>
                "D3D11 staging row pitch "@ + decimal(*row_pitch as nat) + " is smaller than minimum "@
                    + decimal(*minimum as nat),
            D3d11FrameContractError::DepthPitchTooSmall { depth_pitch, minimum } =>
                "D3D11 staging depth pitch "@ + decimal(*depth_pitch as nat)
                    + " is smaller than minimum "@ + decimal(*minimum as nat),
            D3d11FrameContractError::ByteLenTooSmall { byte_len, minimum } =>
                "D3D11 staging byte length "@ + decimal(*byte_len as nat) + " is smaller than minimum "@
                    + decimal(*minimum as nat),
            D3d11FrameContractError::UnsupportedTextureFormat(format) =>
                "unsupported D3D11 texture format for RGBA readback: "@ + format@,
            D3d11FrameContractError::SelectedRegionOutsideFrame =>
                "selected D3D11 readback region is outside the frame"@,
            D3d11FrameContractError::WindowsApi(reason) => "D3D11 readback API failed: "@ + reason@,
        }
    }

    pub fn to_string(&self) -> (r: String)
        ensures
            r@ == self.spec_message(),
    {
        let mut s = String::new();
        match self {
            D3d11FrameContractError::UnsupportedContractVersion(version) => {
                s.append("unsupported D3D11 frame contract version: ");
                push_u64(&mut s, *version as u64);
            },
            D3d11FrameContractError::EmptyDimensions { width, height } => {
                s.append("empty D3D11 texture frame dimensions: ");
                push_u64(&mut s, *width as u64);
                s.append("x");
                push_u64(&mut s, *height as u64);
            },
            D3d11FrameContractError::MissingSharedHandle => {
                s.append("D3D11 shared handle metadata has no handle");
            },
            D3d11FrameContractError::MissingStagingTexture => {
                s.append("D3D11 staging texture was not returned");
            },
            D3d11FrameContractError::MissingStagingReadback => {
                s.append("D3D11 CPU readback requires staging metadata");
            },
            D3d11FrameContractError::MissingReadbackBytes => {
                s.append("D3D11 CPU readback bytes are missing");
            },
            D3d11FrameContractError::StagingReadbackNotMapped => {
                s.append("D3D11 staging texture is not mapped for CPU readback");
            },
            D3d11FrameContractError::PitchOverflow => {
                s.append("D3D11 staging readback pitch overflows");
            },
            D3d11FrameContractError::RowPitchTooSmall { row_pitch, minimum } => {
                s.append("D3D11 staging row pitch ");
                push_u64(&mut s, *row_pitch as u64);
                s.append(" is smaller than minimum ");
                push_u64(&mut s, *minimum as u64);
            },
            D3d11FrameContractError::DepthPitchTooSmall { depth_pitch, minimum } => {
                s.append("D3D11 staging depth pitch ");
                push_u64(&mut s, *depth_pitch as u64);
                s.append(" is smaller than minimum ");
                push_u64(&mut s, *minimum as u64);
            },
            D3d11FrameContractError::ByteLenTooSmall { byte_len, minimum } => {
                s.append("D3D11 staging byte length ");
                push_u64(&mut s, *byte_len as u64);
                s.append(" is smaller than minimum ");
                push_u64(&mut s, *minimum as u64);
            },
            D3d11FrameContractError::UnsupportedTextureFormat(format) => {
                s.append("unsupported D3D11 texture format for RGBA readback: ");
                s.append(format.as_str());
            },
            D3d11FrameContractError::SelectedRegionOutsideFrame => {
                s.append("selected D3D11 readback region is outside the frame");
            },
            D3d11FrameContractError::WindowsApi(reason) => {
                s.append("D3D11 readback API failed: ");
                s.append(reason.as_str());
            },
        }
        proof {
            assert(s@ =~= self.spec_message());
        }
        s
    }
}

pub type D3d11FrameResult<T> = Result<T, D3d11FrameContractError>;

} // verus!
