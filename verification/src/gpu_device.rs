//! D3D11 device selection: feature levels, adapters and the fallback diagnostics.
//!
//! Device creation itself is a Windows call; on other platforms it reports that the
//! platform is unsupported, and the rest of this module decides from plain values.
use vstd::prelude::*;

use crate::text::{hex_digits, hex_padded, push_hex_digits, push_hex_padded};

verus! {

/// A locally unique adapter identifier.
#[allow(non_snake_case)]
#[derive(Debug, Default, Clone, Copy, PartialEq, Eq, Structural)]
pub struct LUID {
    pub LowPart: u32,
    pub HighPart: i32,
}

/// A Direct3D feature level; `Unknown` stands for any level not listed.
#[derive(Debug, Clone, Copy, PartialEq, Eq, Structural, PartialOrd, Ord)]
pub enum D3d11FeatureLevel {
    V10_0,
    V10_1,
    V11_0,
    V11_1,
    V12_0,
    V12_1,
    Unknown,
}

impl D3d11FeatureLevel {
    /// The position of the level in declaration order, which is the order `Ord` uses.
    pub open spec fn spec_rank(self) -> int {
        match self {
            D3d11FeatureLevel::V10_0 => 0,
            D3d11FeatureLevel::V10_1 => 1,
            D3d11FeatureLevel::V11_0 => 2,
            D3d11FeatureLevel::V11_1 => 3,
            D3d11FeatureLevel::V12_0 => 4,
            D3d11FeatureLevel::V12_1 => 5,
            D3d11FeatureLevel::Unknown => 6,
        }
    }

    pub open spec fn spec_supports_capture(self) -> bool {
        self is V11_0 || self is V11_1 || self is V12_0 || self is V12_1
    }

    /// The variant name, as a derived `Debug` prints it.
    pub open spec fn spec_debug_name(self) -> Seq<char> {
        match self {
            D3d11FeatureLevel::V10_0 => "V10_0"@,
            D3d11FeatureLevel::V10_1 => "V10_1"@,
            D3d11FeatureLevel::V11_0 => "V11_0"@,
            D3d11FeatureLevel::V11_1 => "V11_1"@,
            D3d11FeatureLevel::V12_0 => "V12_0"@,
            D3d11FeatureLevel::V12_1 => "V12_1"@,
            D3d11FeatureLevel::Unknown => "Unknown"@,
        }
    }

    /// The `D3D_FEATURE_LEVEL` value of a level; the unknown level has none.
    pub open spec fn spec_as_raw(self) -> Option<i32> {
        match self {
            D3d11FeatureLevel::V10_0 => Some(0xa000),
            D3d11FeatureLevel::V10_1 => Some(0xa100),
            D3d11FeatureLevel::V11_0 => Some(0xb000),
            D3d11FeatureLevel::V11_1 => Some(0xb100),
            D3d11FeatureLevel::V12_0 => Some(0xc000),
            D3d11FeatureLevel::V12_1 => Some(0xc100),
            D3d11FeatureLevel::Unknown => None,
        }
    }

    /// The level of a `D3D_FEATURE_LEVEL` value; values of other levels are unknown.
    pub open spec fn spec_from_raw(raw: i32) -> D3d11FeatureLevel {
        if raw == 0xa000 {
            D3d11FeatureLevel::V10_0
        } else if raw == 0xa100 {
            D3d11FeatureLevel::V10_1
        } else if raw == 0xb000 {
            D3d11FeatureLevel::V11_0
        } else if raw == 0xb100 {
            D3d11FeatureLevel::V11_1
        } else if raw == 0xc000 {
            D3d11FeatureLevel::V12_0
        } else if raw == 0xc100 {
            D3d11FeatureLevel::V12_1
        } else {
            D3d11FeatureLevel::Unknown
        }
    }

    pub fn as_raw(self) -> (r: Option<i32>)
        ensures
            r == self.spec_as_raw(),
    {
        match self {
            D3d11FeatureLevel::V10_0 => Some(0xa000),
            D3d11FeatureLevel::V10_1 => Some(0xa100),
            D3d11FeatureLevel::V11_0 => Some(0xb000),
            D3d11FeatureLevel::V11_1 => Some(0xb100),
            D3d11FeatureLevel::V12_0 => Some(0xc000),
            D3d11FeatureLevel::V12_1 => Some(0xc100),
            D3d11FeatureLevel::Unknown => None,
        }
    }

    pub fn from_raw(raw: i32) -> (r: Self)
        ensures
            r == Self::spec_from_raw(raw),
    {
        if raw == 0xa000 {
            D3d11FeatureLevel::V10_0
        } else if raw == 0xa100 {
            D3d11FeatureLevel::V10_1
        } else if raw == 0xb000 {
            D3d11FeatureLevel::V11_0
        } else if raw == 0xb100 {
            D3d11FeatureLevel::V11_1
        } else if raw == 0xc000 {
            D3d11FeatureLevel::V12_0
        } else if raw == 0xc100 {
            D3d11FeatureLevel::V12_1
        } else {
            D3d11FeatureLevel::Unknown
        }
    }

    /// The levels that device creation asks for, best first.
    pub open spec fn spec_preferred_order() -> Seq<D3d11FeatureLevel> {
        seq![
            D3d11FeatureLevel::V12_1,
            D3d11FeatureLevel::V12_0,
            D3d11FeatureLevel::V11_1,
            D3d11FeatureLevel::V11_0,
            D3d11FeatureLevel::V10_1,
            D3d11FeatureLevel::V10_0,
        ]
    }

    /// The lowest level accepted for capture.
    pub open spec fn spec_min_capture_level() -> D3d11FeatureLevel {
        D3d11FeatureLevel::V11_0
    }

    pub fn rank(self) -> (r: u8)
        ensures
            r == self.spec_rank(),
    {
        match self {
            D3d11FeatureLevel::V10_0 => 0,
            D3d11FeatureLevel::V10_1 => 1,
            D3d11FeatureLevel::V11_0 => 2,
            D3d11FeatureLevel::V11_1 => 3,
            D3d11FeatureLevel::V12_0 => 4,
            D3d11FeatureLevel::V12_1 => 5,
            D3d11FeatureLevel::Unknown => 6,
        }
    }

    pub fn preferred_order() -> (r: Vec<D3d11FeatureLevel>)
        ensures
            r@ == Self::spec_preferred_order(),
    {
        let r = vec![
            D3d11FeatureLevel::V12_1,
            D3d11FeatureLevel::V12_0,
            D3d11FeatureLevel::V11_1,
            D3d11FeatureLevel::V11_0,
            D3d11FeatureLevel::V10_1,
            D3d11FeatureLevel::V10_0,
        ];
        proof {
            assert(r@ =~= Self::spec_preferred_order());
        }
        r
    }

    pub fn min_capture_level() -> (r: D3d11FeatureLevel)
        ensures
            r == Self::spec_min_capture_level(),
    {
        D3d11FeatureLevel::V11_0
    }

    pub fn supports_capture(self) -> (r: bool)
        ensures
            r == self.spec_supports_capture(),
    {
        match self {
            D3d11FeatureLevel::V11_0 | D3d11FeatureLevel::V11_1 | D3d11FeatureLevel::V12_0
            | D3d11FeatureLevel::V12_1 => true,
            _ => false,
        }
    }

    pub fn debug_name(self) -> (r: &'static str)
        ensures
            r@ == self.spec_debug_name(),
    {
        match self {
            D3d11FeatureLevel::V10_0 => "V10_0",
            D3d11FeatureLevel::V10_1 => "V10_1",
            D3d11FeatureLevel::V11_0 => "V11_0",
            D3d11FeatureLevel::V11_1 => "V11_1",
            D3d11FeatureLevel::V12_0 => "V12_0",
            D3d11FeatureLevel::V12_1 => "V12_1",
            D3d11FeatureLevel::Unknown => "Unknown",
        }
    }
}

/// The levels of the preferred order at or above `minimum`, best first.
pub open spec fn spec_feature_level_candidates(minimum: D3d11FeatureLevel) -> Seq<D3d11FeatureLevel> {
    D3d11FeatureLevel::spec_preferred_order().filter(
        |level: D3d11FeatureLevel| level.spec_rank() >= minimum.spec_rank(),
    )
}

/// The feature levels to request for a device of at least `minimum`; an error when
/// none of the known levels qualifies.
pub fn feature_level_candidates(minimum: D3d11FeatureLevel) -> (r: Result<
    Vec<D3d11FeatureLevel>,
    D3d11DeviceError,
>)
    ensures
        match r {
            Ok(levels) => levels@ == spec_feature_level_candidates(minimum) && levels@.len() > 0,
            Err(e) => e == D3d11DeviceError::UnsupportedFeatureLevel(minimum)
                && spec_feature_level_candidates(minimum).len() == 0,
        },
{
    let order = D3d11FeatureLevel::preferred_order();
    let min_rank = minimum.rank();
    let mut out: Vec<D3d11FeatureLevel> = Vec::new();
    let mut i: usize = 0;
    while i < order.len()
        invariant
            order@ == D3d11FeatureLevel::spec_preferred_order(),
            i <= order@.len(),
            min_rank == minimum.spec_rank(),
            out@ == order@.subrange(0, i as int).filter(
                |level: D3d11FeatureLevel| level.spec_rank() >= minimum.spec_rank(),
            ),
        decreases order@.len() - i,
    {
        let level = order[i];
        proof {
            let f = |level: D3d11FeatureLevel| level.spec_rank() >= minimum.spec_rank();
            let prefix = order@.subrange(0, i as int);
            assert(order@.subrange(0, i + 1) =~= prefix.push(level));
            assert(prefix.push(level).drop_last() =~= prefix);
            reveal(Seq::filter);
            assert(prefix.push(level).filter(f) == if f(level) {
                prefix.filter(f).push(level)
            } else {
                prefix.filter(f)
            });
        }
        if level.rank() >= min_rank {
            out.push(level);
        }
        i = i + 1;
    }
    proof {
        assert(order@.subrange(0, order@.len() as int) =~= order@);
    }
    if out.len() == 0 {
        return Err(D3d11DeviceError::UnsupportedFeatureLevel(minimum));
    }
    Ok(out)
}

/// Which adapter to create the device on.
#[derive(Debug, Clone, Copy, PartialEq, Eq, Structural)]
pub enum D3d11AdapterPreference {
    Default,
    HighPerformance,
    MinimumPower,
}

/// What the adapter reported about itself.
#[derive(Debug, Clone, PartialEq, Eq)]
pub struct D3d11AdapterInfo {
    pub description: String,
    pub vendor_id: u32,
    pub device_id: u32,
    pub subsystem_id: u32,
    pub revision: u32,
    pub flags: u32,
    pub luid: LUID,
}

impl D3d11AdapterInfo {
    /// `description (vendor=0xVVVV, device=0xDDDD, luid=HHHHHHHH:LLLLLLLL)`, or the
    /// default label when the description is empty.
    pub open spec fn spec_diagnostic_label(&self) -> Seq<char> {
        if self.description@.len() == 0 {
            "default hardware adapter"@
        } else {
            self.description@ + " (vendor=0x"@ + hex_padded(self.vendor_id as nat, 4)
                + ", device=0x"@ + hex_padded(self.device_id as nat, 4) + ", luid="@ + hex_digits(
                (self.luid.HighPart as u32) as nat,
                8,
            ) + ":"@ + hex_digits(self.luid.LowPart as nat, 8) + ")"@
        }
    }

    pub fn unknown() -> (r: Self)
        ensures
            r.description@.len() == 0,
            r.vendor_id == 0 && r.device_id == 0 && r.subsystem_id == 0 && r.revision == 0
                && r.flags == 0,
            r.luid == (LUID { LowPart: 0, HighPart: 0 }),
    {
        Self {
            description: String::new(),
            vendor_id: 0,
            device_id: 0,
            subsystem_id: 0,
            revision: 0,
            flags: 0,
            luid: LUID { LowPart: 0, HighPart: 0 },
        }
    }

    pub fn diagnostic_label(&self) -> (r: String)
        ensures
            r@ == self.spec_diagnostic_label(),
    {
        if self.description.as_str().is_empty() {
            return String::from_str("default hardware adapter");
        }
        let mut s = String::from_str(self.description.as_str());
        s.append(" (vendor=0x");
        push_hex_padded(&mut s, self.vendor_id, 4);
        s.append(", device=0x");
        push_hex_padded(&mut s, self.device_id, 4);
        s.append(", luid=");
        push_hex_digits(&mut s, self.luid.HighPart as u32, 8);
        s.append(":");
        push_hex_digits(&mut s, self.luid.LowPart, 8);
        s.append(")");
        proof {
            assert(s@ =~= self.spec_diagnostic_label());
        }
        s
    }
}

/// An adapter picked for device creation.
#[derive(Debug, Clone)]
pub struct D3d11AdapterHandle {
    pub info: D3d11AdapterInfo,
}

/// A created device, described by its level and diagnostics.
#[derive(Debug, Clone)]
pub struct D3d11DeviceHandle {
    pub adapter: Option<D3d11AdapterHandle>,
    pub feature_level: D3d11FeatureLevel,
    pub diagnostics: D3d11DeviceDiagnostics,
}

impl D3d11DeviceHandle {
    pub fn supports_capture(&self) -> (r: bool)
        ensures
            r == self.feature_level.spec_supports_capture(),
    {
        self.feature_level.supports_capture()
    }
}

/// What device creation reports for diagnostics.
#[derive(Debug, Clone, PartialEq, Eq)]
pub struct D3d11DeviceDiagnostics {
    pub adapter_preference: D3d11AdapterPreference,
    pub adapter_label: String,
    pub feature_level: D3d11FeatureLevel,
    pub debug_layer_requested: bool,
    pub used_default_adapter: bool,
    pub fallback_reason: Option<String>,
}

impl D3d11DeviceDiagnostics {
    /// The diagnostics of a device that could not be created.
    pub open spec fn spec_fallback(
        options: D3d11DeviceCreateOptions,
        reason: Seq<char>,
        r: D3d11DeviceDiagnostics,
    ) -> bool {
        &&& r.adapter_preference == options.adapter_preference
        &&& r.adapter_label@ == "unavailable"@
        &&& r.feature_level == D3d11FeatureLevel::Unknown
        &&& r.debug_layer_requested == options.enable_debug_layer
        &&& r.used_default_adapter == (options.adapter_preference == D3d11AdapterPreference::Default)
        &&& r.fallback_reason matches Some(text) && text@ == reason
    }

    pub fn fallback(options: D3d11DeviceCreateOptions, reason: String) -> (r: Self)
        ensures
            Self::spec_fallback(options, reason@, r),
    {
        Self {
            adapter_preference: options.adapter_preference,
            adapter_label: String::from_str("unavailable"),
            feature_level: D3d11FeatureLevel::Unknown,
            debug_layer_requested: options.enable_debug_layer,
            used_default_adapter: match options.adapter_preference {
                D3d11AdapterPreference::Default => true,
                _ => false,
            },
            fallback_reason: Some(reason),
        }
    }
}

/// How to create the device.
#[derive(Debug, Clone, Copy, PartialEq, Eq, Structural)]
pub struct D3d11DeviceCreateOptions {
    pub adapter_preference: D3d11AdapterPreference,
    pub minimum_feature_level: D3d11FeatureLevel,
    pub enable_debug_layer: bool,
}

impl Default for D3d11DeviceCreateOptions {
    fn default() -> (r: Self)
        ensures
            r == (D3d11DeviceCreateOptions {
                adapter_preference: D3d11AdapterPreference::Default,
                minimum_feature_level: D3d11FeatureLevel::V11_0,
                enable_debug_layer: false,
            }),
    {
        Self {
            adapter_preference: D3d11AdapterPreference::Default,
            minimum_feature_level: D3d11FeatureLevel::min_capture_level(),
            enable_debug_layer: false,
        }
    }
}

/// Why no capture device is available.
#[derive(Debug, Clone, PartialEq, Eq)]
pub enum D3d11DeviceError {
    UnsupportedPlatform(&'static str),
    AdapterUnavailable(String),
    UnsupportedFeatureLevel(D3d11FeatureLevel),
    DeviceUnavailable(String),
    ImmediateContextUnavailable,
    WindowsApi(String),
}

impl D3d11DeviceError {
    /// The reason shown when the CPU screenshot path takes over.
    pub open spec fn spec_safe_fallback_reason(&self) -> Seq<char> {
        let reason = match self {
            D3d11DeviceError::UnsupportedPlatform(reason) => "D3D11 unavailable: "@ + reason@,
            D3d11DeviceError::AdapterUnavailable(reason) => "D3D11 adapter unavailable: "@
                + reason@,
            D3d11DeviceError::UnsupportedFeatureLevel(level) => "D3D11 feature level "@
                + level.spec_debug_name() + " is below capture minimum"@,
            D3d11DeviceError::DeviceUnavailable(reason) => "D3D11 device unavailable: "@
                + reason@,
            D3d11DeviceError::ImmediateContextUnavailable => "D3D11 immediate context unavailable"@,
            D3d11DeviceError::WindowsApi(reason) => "D3D11 API failed: "@ + reason@,
        };
        reason + "; use existing CPU screenshot path."@
    }

    /// The display text of the error.
    pub open spec fn spec_message(&self) -> Seq<char> {
        match self {
            D3d11DeviceError::UnsupportedPlatform(reason) =>
                "D3D11 is unsupported on this platform: "@ + reason@,
            D3d11DeviceError::AdapterUnavailable(reason) => "D3D11 adapter is unavailable: "@
                + reason@,
            D3d11DeviceError::UnsupportedFeatureLevel(level) => "D3D11 feature level "@
                + level.spec_debug_name() + " is unsupported for capture"@,
            D3d11DeviceError::DeviceUnavailable(reason) => "D3D11 device is unavailable: "@
                + reason@,
            D3d11DeviceError::ImmediateContextUnavailable =>
                "D3D11 immediate context was not returned"@,
            D3d11DeviceError::WindowsApi(reason) => "D3D11 Windows API call failed: "@ + reason@,
        }
    }

    pub fn safe_fallback_reason(&self) -> (r: String)
        ensures
            r@ == self.spec_safe_fallback_reason(),
    {
        let mut s = String::new();
        match self {
            D3d11DeviceError::UnsupportedPlatform(reason) => {
                s.append("D3D11 unavailable: ");
                s.append(reason);
            },
            D3d11DeviceError::AdapterUnavailable(reason) => {
                s.append("D3D11 adapter unavailable: ");
                s.append(reason.as_str());
            },
            D3d11DeviceError::UnsupportedFeatureLevel(level) => {
                s.append("D3D11 feature level ");
                s.append(level.debug_name());
                s.append(" is below capture minimum");
            },
            D3d11DeviceError::DeviceUnavailable(reason) => {
                s.append("D3D11 device unavailable: ");
                s.append(reason.as_str());
            },
            D3d11DeviceError::ImmediateContextUnavailable => {
                s.append("D3D11 immediate context unavailable");
            },
            D3d11DeviceError::WindowsApi(reason) => {
                s.append("D3D11 API failed: ");
                s.append(reason.as_str());
            },
        }
        s.append("; use existing CPU screenshot path.");
        proof {
            assert(s@ =~= self.spec_safe_fallback_reason());
        }
        s
    }

    pub fn to_string(&self) -> (r: String)
        ensures
            r@ == self.spec_message(),
    {
        let mut s = String::new();
        match self {
            D3d11DeviceError::UnsupportedPlatform(reason) => {
                s.append("D3D11 is unsupported on this platform: ");
                s.append(reason);
            },
            D3d11DeviceError::AdapterUnavailable(reason) => {
                s.append("D3D11 adapter is unavailable: ");
                s.append(reason.as_str());
            },
            D3d11DeviceError::UnsupportedFeatureLevel(level) => {
                s.append("D3D11 feature level ");
                s.append(level.debug_name());
                s.append(" is unsupported for capture");
            },
            D3d11DeviceError::DeviceUnavailable(reason) => {
                s.append("D3D11 device is unavailable: ");
                s.append(reason.as_str());
            },
            D3d11DeviceError::ImmediateContextUnavailable => {
                s.append("D3D11 immediate context was not returned");
            },
            D3d11DeviceError::WindowsApi(reason) => {
                s.append("D3D11 Windows API call failed: ");
                s.append(reason.as_str());
            },
        }
        proof {
            assert(s@ =~= self.spec_message());
        }
        s
    }
}

pub type D3d11DeviceResult<T> = Result<T, D3d11DeviceError>;

/// Device creation on a platform without Direct3D: always the unsupported-platform error.
pub fn create_d3d11_capture_device(options: D3d11DeviceCreateOptions) -> (r: D3d11DeviceResult<
    D3d11DeviceHandle,
>)
    ensures
        r matches Err(D3d11DeviceError::UnsupportedPlatform(reason)) && reason@
            == "D3D11 capture device creation is compile-gated to Windows builds"@,
{
    Err(
        D3d11DeviceError::UnsupportedPlatform(
            "D3D11 capture device creation is compile-gated to Windows builds",
        ),
    )
}


/// What a returned device creation yields. The level the driver reports must support
/// capture and reach the requested minimum; then the device and its immediate context
/// must be there. The diagnostics name the chosen adapter, or the default hardware
/// adapter when none was chosen.
pub fn accept_created_d3d11_device(
    raw_level: i32,
    options: D3d11DeviceCreateOptions,
    adapter: Option<&D3d11AdapterInfo>,
    device_present: bool,
    context_present: bool,
) -> (r: D3d11DeviceResult<D3d11DeviceDiagnostics>)
    ensures
        ({
            let level = D3d11FeatureLevel::spec_from_raw(raw_level);
            let label = match adapter {
                Some(info) => info.spec_diagnostic_label(),
                None => "default hardware adapter"@,
            };
            if !level.spec_supports_capture() || level.spec_rank()
                < options.minimum_feature_level.spec_rank() {
                r == Err::<D3d11DeviceDiagnostics, D3d11DeviceError>(
                    D3d11DeviceError::UnsupportedFeatureLevel(level),
                )
            } else if !device_present {
                r matches Err(D3d11DeviceError::DeviceUnavailable(text)) && text@ == label
            } else if !context_present {
                r == Err::<D3d11DeviceDiagnostics, D3d11DeviceError>(
                    D3d11DeviceError::ImmediateContextUnavailable,
                )
            } else {
                r matches Ok(d) && d.adapter_preference == options.adapter_preference
                    && d.adapter_label@ == label && d.feature_level == level
                    && d.debug_layer_requested == options.enable_debug_layer
                    && d.used_default_adapter == adapter is None && d.fallback_reason is None
            }
        }),
{
    let level = D3d11FeatureLevel::from_raw(raw_level);
    if !level.supports_capture() || level.rank() < options.minimum_feature_level.rank() {
        return Err(D3d11DeviceError::UnsupportedFeatureLevel(level));
    }
    let label = match adapter {
        Some(info) => info.diagnostic_label(),
        None => String::from_str("default hardware adapter"),
    };
    if !device_present {
        return Err(D3d11DeviceError::DeviceUnavailable(label));
    }
    if !context_present {
        return Err(D3d11DeviceError::ImmediateContextUnavailable);
    }
    Ok(
        D3d11DeviceDiagnostics {
            adapter_preference: options.adapter_preference,
            adapter_label: label,
            feature_level: level,
            debug_layer_requested: options.enable_debug_layer,
            used_default_adapter: adapter.is_none(),
            fallback_reason: None,
        },
    )
}

/// `D3D11_CREATE_DEVICE_BGRA_SUPPORT`.
pub const D3D11_CREATE_DEVICE_BGRA_SUPPORT: u32 = 0x20;

/// `D3D11_CREATE_DEVICE_DEBUG`.
pub const D3D11_CREATE_DEVICE_DEBUG: u32 = 0x2;

/// `DXGI_ADAPTER_FLAG_SOFTWARE`.
pub const DXGI_ADAPTER_FLAG_SOFTWARE: u32 = 0x2;

/// The most adapters an enumeration looks at.
pub const MAX_ENUMERATED_ADAPTERS: usize = 32;

/// The creation flags of a capture device: BGRA support always, the debug layer on
/// request.
pub fn d3d11_device_flags(enable_debug_layer: bool) -> (r: u32)
    ensures
        r == if enable_debug_layer {
            D3D11_CREATE_DEVICE_BGRA_SUPPORT | D3D11_CREATE_DEVICE_DEBUG
        } else {
            D3D11_CREATE_DEVICE_BGRA_SUPPORT
        },
{
    if enable_debug_layer {
        D3D11_CREATE_DEVICE_BGRA_SUPPORT | D3D11_CREATE_DEVICE_DEBUG
    } else {
        D3D11_CREATE_DEVICE_BGRA_SUPPORT
    }
}

/// The `DXGI_GPU_PREFERENCE` an adapter preference asks the factory for.
pub fn dxgi_gpu_preference_code(preference: D3d11AdapterPreference) -> (r: i32)
    ensures
        r == match preference {
            D3d11AdapterPreference::Default => 0i32,
            D3d11AdapterPreference::MinimumPower => 1i32,
            D3d11AdapterPreference::HighPerformance => 2i32,
        },
{
    match preference {
        D3d11AdapterPreference::Default => 0,
        D3d11AdapterPreference::MinimumPower => 1,
        D3d11AdapterPreference::HighPerformance => 2,
    }
}

/// An adapter is hardware when it does not carry the software flag.
pub open spec fn spec_is_hardware_adapter(flags: u32) -> bool {
    flags & DXGI_ADAPTER_FLAG_SOFTWARE == 0
}

pub fn is_hardware_adapter_flags(flags: u32) -> (r: bool)
    ensures
        r == spec_is_hardware_adapter(flags),
{
    flags & DXGI_ADAPTER_FLAG_SOFTWARE == 0
}

/// The position of the first hardware adapter among the flags of the adapters an
/// enumeration returned, in order, looking at no more than the first 32.
pub fn first_hardware_adapter(adapter_flags: &Vec<u32>) -> (r: Option<usize>)
    ensures
        match r {
            Some(i) => i < adapter_flags@.len() && i < MAX_ENUMERATED_ADAPTERS
                && spec_is_hardware_adapter(adapter_flags@[i as int]) && forall|j: int|
                0 <= j < i ==> !spec_is_hardware_adapter(#[trigger] adapter_flags@[j]),
            None => forall|j: int|
                0 <= j < adapter_flags@.len() && j < MAX_ENUMERATED_ADAPTERS
                    ==> !spec_is_hardware_adapter(#[trigger] adapter_flags@[j]),
        },
{
    let mut i: usize = 0;
    while i < adapter_flags.len() && i < MAX_ENUMERATED_ADAPTERS
        invariant
            i <= adapter_flags@.len(),
            i <= MAX_ENUMERATED_ADAPTERS,
            forall|j: int| 0 <= j < i ==> !spec_is_hardware_adapter(#[trigger] adapter_flags@[j]),
        decreases adapter_flags@.len() - i,
    {
        if is_hardware_adapter_flags(adapter_flags[i]) {
            return Some(i);
        }
        i = i + 1;
    }
    None
}

/// Every known level survives a round trip through its `D3D_FEATURE_LEVEL` value, and
/// only the unknown level has no value.
pub proof fn feature_level_raw_round_trip(level: D3d11FeatureLevel)
    ensures
        match level.spec_as_raw() {
            Some(raw) => D3d11FeatureLevel::spec_from_raw(raw) == level,
            None => level is Unknown,
        },
{
}

} // verus!
