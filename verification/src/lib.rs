//! Selection, capture routing and readback planning for a native screenshot overlay.
//!
//! Every executable function in this crate carries a contract that Verus checks.
//! Platform calls (Win32, D3D11, DXGI, clipboard) are not part of the crate: the
//! crate decides from plain values what those calls are asked and what their
//! answers mean.
#![allow(unused_imports)]

pub mod numeric;
pub mod text;
pub mod capture;
pub mod candidates;
pub mod gpu_device;
pub mod gpu;
pub mod wgc_contract;
pub mod wgc_probe;
pub mod dxgi_output;
pub mod dxgi_probe;
pub mod dxgi_session;
pub mod d3d11_frame;
pub mod dxgi_capture;
pub mod capture_router;
pub mod capability;
pub mod overlay;
pub mod overlay_renderer;
pub mod presenter;
pub mod selected_image_bridge;
pub mod monitor_output_mapping;
pub mod selected_readback_plan;
pub mod focus;
pub mod session;
pub mod native_overlay_smoke;
pub mod output;
pub mod input;
pub mod selection_state;
pub mod native_route_readiness;
pub mod native_overlay_session;
pub mod wgc_target;
pub mod clock;
pub mod wgc_session;
pub mod selected_output_effects;
pub mod selected_output_clipboard;
pub mod wgc_readback;
pub mod wgc_selected_output_acceptance;
pub mod dxgi_selected_output_acceptance;
pub mod dxgi_texture;
pub mod dxgi_readback;
pub mod wgc_device;
pub mod wgc_capture;
pub mod dxgi_frame_info_probe;
pub mod win32_desktop_update_pulse;
pub mod dxgi_pulse_before_acquire_probe;
pub mod win32_cursor;
pub mod native_input_smoke;
pub mod dxgi_presenter_smoke;
pub mod dxgi_output_bridge_plan;
pub mod dxgi_smoke;
pub mod dxgi_output_bridge_smoke;
