//! Whether DXGI desktop duplication can be attempted on this machine.
use vstd::prelude::*;

use crate::dxgi_output::DxgiDesktopCoordinates;

verus! {

/// What the DXGI factory, adapter and output enumeration found.
#[derive(Debug, Clone, PartialEq, Eq)]
pub struct DxgiNativeApiProbe {
    pub is_windows: bool,
    pub has_factory: bool,
    pub has_adapter: bool,
    pub has_output: bool,
    pub desktop_coordinates: Option<DxgiDesktopCoordinates>,
    pub reason: Option<String>,
}

impl DxgiNativeApiProbe {
    pub open spec fn spec_supports_duplication_probe(&self) -> bool {
        self.is_windows && self.has_factory && self.has_adapter && self.has_output
    }

    pub fn available() -> (r: Self)
        ensures
            r.is_windows && r.has_factory && r.has_adapter && r.has_output,
            r.desktop_coordinates is None,
            r.reason is None,
    {
        Self {
            is_windows: true,
            has_factory: true,
            has_adapter: true,
            has_output: true,
            desktop_coordinates: None,
            reason: None,
        }
    }

    pub fn available_with_desktop_coordinates(
        desktop_coordinates: Option<DxgiDesktopCoordinates>,
        reason: Option<String>,
    ) -> (r: Self)
        ensures
            r.is_windows && r.has_factory && r.has_adapter && r.has_output,
            r.desktop_coordinates == desktop_coordinates,
            r.reason == reason,
    {
        Self {
            is_windows: true,
            has_factory: true,
            has_adapter: true,
            has_output: true,
            desktop_coordinates,
            reason,
        }
    }

    pub fn unavailable(
        is_windows: bool,
        has_factory: bool,
        has_adapter: bool,
        has_output: bool,
        reason: String,
    ) -> (r: Self)
        ensures
            r.is_windows == is_windows && r.has_factory == has_factory && r.has_adapter
                == has_adapter && r.has_output == has_output,
            r.desktop_coordinates is None,
            r.reason == Some(reason),
    {
        Self {
            is_windows,
            has_factory,
            has_adapter,
            has_output,
            desktop_coordinates: None,
            reason: Some(reason),
        }
    }

    pub fn supports_duplication_probe(&self) -> (r: bool)
        ensures
            r == self.spec_supports_duplication_probe(),
    {
        self.is_windows && self.has_factory && self.has_adapter && self.has_output
    }
}

/// The platform answer off Windows: nothing of DXGI is present.
pub fn probe_dxgi_native_api_support() -> (r: DxgiNativeApiProbe)
    ensures
        !r.is_windows && !r.has_factory && !r.has_adapter && !r.has_output,
        r.desktop_coordinates is None,
        r.reason matches Some(reason) && reason@ == "DXGI Desktop Duplication requires Windows"@,
{
    DxgiNativeApiProbe::unavailable(
        false,
        false,
        false,
        false,
        String::from_str("DXGI Desktop Duplication requires Windows"),
    )
}

} // verus!
