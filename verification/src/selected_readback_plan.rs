//! Planning the readback of a selection from one monitor or output frame.
use vstd::prelude::*;

use crate::capture::MonitorCaptureBounds;
use crate::monitor_output_mapping::{
    map_desktop_selection_to_output_frame, spec_map_desktop_selection,
    MonitorOutputSelectionMapping, MonitorOutputSelectionMappingError,
};
use crate::output::{ImageBounds, SelectionRect};

verus! {

/// Which capture API the readback comes from.
#[derive(Debug, Clone, Copy, PartialEq, Eq, Structural)]
pub enum SelectedReadbackPlanBackend {
    WgcMonitor,
    DxgiOutput,
}

impl SelectedReadbackPlanBackend {
    pub open spec fn spec_as_str(self) -> Seq<char> {
        match self {
            SelectedReadbackPlanBackend::WgcMonitor => "wgc-monitor"@,
            SelectedReadbackPlanBackend::DxgiOutput => "dxgi-output"@,
        }
    }

    pub fn as_str(self) -> (r: &'static str)
        ensures
            r@ == self.spec_as_str(),
    {
        match self {
            SelectedReadbackPlanBackend::WgcMonitor => "wgc-monitor",
            SelectedReadbackPlanBackend::DxgiOutput => "dxgi-output",
        }
    }
}

/// Why no readback could be planned.
#[derive(Debug, Clone, Copy, PartialEq, Eq, Structural)]
pub enum SelectedReadbackPlanError {
    EmptyRequestedBounds,
    RequestedBoundsOverflow,
    Mapping(MonitorOutputSelectionMappingError),
}

impl SelectedReadbackPlanError {
    pub open spec fn spec_message(self) -> Seq<char> {
        match self {
            SelectedReadbackPlanError::EmptyRequestedBounds => "requested selected bounds are empty"@,
            SelectedReadbackPlanError::RequestedBoundsOverflow =>
                "requested selected bounds exceed supported selection coordinates"@,
            SelectedReadbackPlanError::Mapping(error) => "selected readback mapping failed: "@
                + error.spec_message(),
        }
    }

    pub fn to_string(self) -> (r: String)
        ensures
            r@ == self.spec_message(),
    {
        match self {
            SelectedReadbackPlanError::EmptyRequestedBounds => String::from_str(
                "requested selected bounds are empty",
            ),
            SelectedReadbackPlanError::RequestedBoundsOverflow => String::from_str(
                "requested selected bounds exceed supported selection coordinates",
            ),
            SelectedReadbackPlanError::Mapping(error) => {
                let mut s = String::from_str("selected readback mapping failed: ");
                s.append(error.to_string().as_str());
                s
            },
        }
    }
}

impl From<MonitorOutputSelectionMappingError> for SelectedReadbackPlanError {
    fn from(error: MonitorOutputSelectionMappingError) -> (r: Self) {
        SelectedReadbackPlanError::Mapping(error)
    }
}

impl vstd::std_specs::convert::FromSpecImpl<MonitorOutputSelectionMappingError> for SelectedReadbackPlanError {
    open spec fn obeys_from_spec() -> bool {
        true
    }

    open spec fn from_spec(v: MonitorOutputSelectionMappingError) -> Self {
        SelectedReadbackPlanError::Mapping(v)
    }
}

/// How far the requested bounds reach past each edge of the target, in pixels.
#[derive(Debug, Clone, Copy, PartialEq, Eq, Structural)]
pub struct PhysicalOverflowPixels {
    pub left: u32,
    pub top: u32,
    pub right: u32,
    pub bottom: u32,
}

impl PhysicalOverflowPixels {
    pub open spec fn spec_has_overflow(self) -> bool {
        self.left > 0 || self.top > 0 || self.right > 0 || self.bottom > 0
    }

    pub fn none() -> (r: Self)
        ensures
            r == (PhysicalOverflowPixels { left: 0, top: 0, right: 0, bottom: 0 }),
    {
        Self { left: 0, top: 0, right: 0, bottom: 0 }
    }

    pub fn has_overflow(self) -> (r: bool)
        ensures
            r == self.spec_has_overflow(),
    {
        self.left > 0 || self.top > 0 || self.right > 0 || self.bottom > 0
    }
}

/// The planned readback. The share of the request that lies on the target is
/// `requested_target_intersection_area / requested_area`.
#[derive(Debug, Clone, Copy, PartialEq, Eq, Structural)]
pub struct SelectedReadbackPlan {
    pub backend: SelectedReadbackPlanBackend,
    pub requested_bounds_physical: MonitorCaptureBounds,
    pub target_bounds_physical: MonitorCaptureBounds,
    pub output_frame_bounds: ImageBounds,
    pub mapping: MonitorOutputSelectionMapping,
    pub crop_overflow_physical: PhysicalOverflowPixels,
    pub requested_target_intersection_area: u64,
    pub requested_area: u64,
    pub session_frame_pool_requested_size: ImageBounds,
    pub capture_item_expected_size: ImageBounds,
    pub frame_pool_matches_capture_item: bool,
    pub diagnostic_only: bool,
    pub readiness_changed: bool,
}

impl SelectedReadbackPlan {
    pub open spec fn spec_crop_within_target(self) -> bool {
        !self.crop_overflow_physical.spec_has_overflow()
    }

    pub open spec fn spec_selected_output_ready(self) -> bool {
        self.spec_crop_within_target() && self.frame_pool_matches_capture_item
            && self.mapping.frame_matches_monitor_bounds
    }

    pub fn crop_within_target(self) -> (r: bool)
        ensures
            r == self.spec_crop_within_target(),
    {
        !self.crop_overflow_physical.has_overflow()
    }

    pub fn selected_output_ready(self) -> (r: bool)
        ensures
            r == self.spec_selected_output_ready(),
    {
        self.crop_within_target() && self.frame_pool_matches_capture_item
            && self.mapping.frame_matches_monitor_bounds
    }
}

/// `v` clamped into `0..=u32::MAX`.
pub open spec fn saturate_u32(v: int) -> u32 {
    if v <= 0 {
        0
    } else if v > u32::MAX {
        u32::MAX
    } else {
        v as u32
    }
}

fn saturating_u32(value: i64) -> (r: u32)
    ensures
        r == saturate_u32(value as int),
{
    if value <= 0 {
        0
    } else if value > u32::MAX as i64 {
        u32::MAX
    } else {
        value as u32
    }
}

/// How far the request reaches past each edge of the target (edges known to fit `i32`).
pub open spec fn spec_crop_overflow(requested: MonitorCaptureBounds, target: MonitorCaptureBounds) -> PhysicalOverflowPixels {
    PhysicalOverflowPixels {
        left: saturate_u32(target.origin_x - requested.origin_x),
        top: saturate_u32(target.origin_y - requested.origin_y),
        right: saturate_u32(
            (requested.spec_right()->Some_0 as int) - (target.spec_right()->Some_0 as int),
        ),
        bottom: saturate_u32(
            (requested.spec_bottom()->Some_0 as int) - (target.spec_bottom()->Some_0 as int),
        ),
    }
}

/// `a - b`, or zero when `b` exceeds `a`.
pub open spec fn sat_sub(a: int, b: int) -> int {
    if a > b {
        a - b
    } else {
        0
    }
}

/// The overlap area: the request shrunk by the overflow on each side, capped by the
/// areas of the request and the target.
pub open spec fn spec_intersection_area(
    requested: MonitorCaptureBounds,
    target: MonitorCaptureBounds,
    overflow: PhysicalOverflowPixels,
) -> u64 {
    let w = sat_sub(sat_sub(requested.width as int, overflow.left as int), overflow.right as int);
    let h = sat_sub(sat_sub(requested.height as int, overflow.top as int), overflow.bottom as int);
    let requested_area = requested.width * requested.height;
    let target_area = target.width * target.height;
    min_u64(min_u64(w * h, requested_area) as int, target_area)
}

pub open spec fn min_u64(a: int, b: int) -> u64 {
    if a <= b {
        a as u64
    } else {
        b as u64
    }
}

/// The plan for a requested rectangle on a target monitor or output.
pub open spec fn spec_plan_selected_readback(
    backend: SelectedReadbackPlanBackend,
    requested: MonitorCaptureBounds,
    target: MonitorCaptureBounds,
    frame: ImageBounds,
) -> Result<SelectedReadbackPlan, SelectedReadbackPlanError> {
    if requested.spec_is_empty() {
        Err(SelectedReadbackPlanError::EmptyRequestedBounds)
    } else if requested.spec_right() is None || requested.spec_bottom() is None || requested.width
        > i32::MAX || requested.height > i32::MAX {
        Err(SelectedReadbackPlanError::RequestedBoundsOverflow)
    } else {
        let selection = SelectionRect {
            x: requested.origin_x,
            y: requested.origin_y,
            width: requested.width as i32,
            height: requested.height as i32,
        };
        match spec_map_desktop_selection(target, frame, selection) {
            Err(e) => Err(SelectedReadbackPlanError::Mapping(e)),
            Ok(mapping) => {
                let overflow = spec_crop_overflow(requested, target);
                let size = ImageBounds { width: target.width, height: target.height };
                Ok(
                    SelectedReadbackPlan {
                        backend,
                        requested_bounds_physical: requested,
                        target_bounds_physical: target,
                        output_frame_bounds: frame,
                        mapping,
                        crop_overflow_physical: overflow,
                        requested_target_intersection_area: spec_intersection_area(
                            requested,
                            target,
                            overflow,
                        ),
                        requested_area: (requested.width * requested.height) as u64,
                        session_frame_pool_requested_size: size,
                        capture_item_expected_size: size,
                        frame_pool_matches_capture_item: true,
                        diagnostic_only: true,
                        readiness_changed: false,
                    },
                )
            },
        }
    }
}

pub fn plan_selected_readback_from_desktop_bounds(
    backend: SelectedReadbackPlanBackend,
    requested_bounds_physical: MonitorCaptureBounds,
    target_bounds_physical: MonitorCaptureBounds,
    output_frame_bounds: ImageBounds,
) -> (r: Result<SelectedReadbackPlan, SelectedReadbackPlanError>)
    ensures
        r == spec_plan_selected_readback(
            backend,
            requested_bounds_physical,
            target_bounds_physical,
            output_frame_bounds,
        ),
{
    if requested_bounds_physical.is_empty() {
        return Err(SelectedReadbackPlanError::EmptyRequestedBounds);
    }
    let requested_right = match requested_bounds_physical.right() {
        Some(v) => v,
        None => return Err(SelectedReadbackPlanError::RequestedBoundsOverflow),
    };
    let requested_bottom = match requested_bounds_physical.bottom() {
        Some(v) => v,
        None => return Err(SelectedReadbackPlanError::RequestedBoundsOverflow),
    };
    if requested_bounds_physical.width > i32::MAX as u32 || requested_bounds_physical.height
        > i32::MAX as u32 {
        return Err(SelectedReadbackPlanError::RequestedBoundsOverflow);
    }
    let desktop_selection = SelectionRect::new(
        requested_bounds_physical.origin_x,
        requested_bounds_physical.origin_y,
        requested_bounds_physical.width as i32,
        requested_bounds_physical.height as i32,
    );
    let mapping = match map_desktop_selection_to_output_frame(
        target_bounds_physical,
        output_frame_bounds,
        desktop_selection,
    ) {
        Ok(m) => m,
        Err(e) => return Err(SelectedReadbackPlanError::Mapping(e)),
    };
    let target_right = match target_bounds_physical.right() {
        Some(v) => v,
        None => return Err(
            SelectedReadbackPlanError::Mapping(
                MonitorOutputSelectionMappingError::MonitorBoundsOverflow,
            ),
        ),
    };
    let target_bottom = match target_bounds_physical.bottom() {
        Some(v) => v,
        None => return Err(
            SelectedReadbackPlanError::Mapping(
                MonitorOutputSelectionMappingError::MonitorBoundsOverflow,
            ),
        ),
    };
    let overflow = PhysicalOverflowPixels {
        left: saturating_u32(
            target_bounds_physical.origin_x as i64 - requested_bounds_physical.origin_x as i64,
        ),
        top: saturating_u32(
            target_bounds_physical.origin_y as i64 - requested_bounds_physical.origin_y as i64,
        ),
        right: saturating_u32(requested_right as i64 - target_right as i64),
        bottom: saturating_u32(requested_bottom as i64 - target_bottom as i64),
    };
    let intersection_area = intersection_area(requested_bounds_physical, target_bounds_physical, overflow);
    proof {
        let rw = requested_bounds_physical.width as int;
        let rh = requested_bounds_physical.height as int;
        assert(rw * rh <= 0xffff_ffff * 0xffff_ffff) by (nonlinear_arith)
            requires
                0 <= rw <= 0xffff_ffff,
                0 <= rh <= 0xffff_ffff,
        ;
    }
    let requested_area = requested_bounds_physical.width as u64 * requested_bounds_physical.height as u64;
    let capture_item_expected_size = ImageBounds::new(
        target_bounds_physical.width,
        target_bounds_physical.height,
    );
    let session_frame_pool_requested_size = capture_item_expected_size;
    Ok(
        SelectedReadbackPlan {
            backend,
            requested_bounds_physical,
            target_bounds_physical,
            output_frame_bounds,
            mapping,
            crop_overflow_physical: overflow,
            requested_target_intersection_area: intersection_area,
            requested_area,
            session_frame_pool_requested_size,
            capture_item_expected_size,
            frame_pool_matches_capture_item: session_frame_pool_requested_size
                == capture_item_expected_size,
            diagnostic_only: true,
            readiness_changed: false,
        },
    )
}

fn intersection_area(
    requested: MonitorCaptureBounds,
    target: MonitorCaptureBounds,
    overflow: PhysicalOverflowPixels,
) -> (r: u64)
    ensures
        r == spec_intersection_area(requested, target, overflow),
{
    proof {
        let rw = requested.width as int;
        let rh = requested.height as int;
        let tw = target.width as int;
        let th = target.height as int;
        assert(rw * rh <= 0xffff_ffff * 0xffff_ffff) by (nonlinear_arith)
            requires
                0 <= rw <= 0xffff_ffff,
                0 <= rh <= 0xffff_ffff,
        ;
        assert(tw * th <= 0xffff_ffff * 0xffff_ffff) by (nonlinear_arith)
            requires
                0 <= tw <= 0xffff_ffff,
                0 <= th <= 0xffff_ffff,
        ;
    }
    let requested_area = requested.width as u64 * requested.height as u64;
    let intersection_width = requested.width.saturating_sub(overflow.left).saturating_sub(
        overflow.right,
    );
    let intersection_height = requested.height.saturating_sub(overflow.top).saturating_sub(
        overflow.bottom,
    );
    let target_area = target.width as u64 * target.height as u64;
    proof {
        let w = intersection_width as int;
        let h = intersection_height as int;
        assert(w * h <= 0xffff_ffff * 0xffff_ffff) by (nonlinear_arith)
            requires
                0 <= w <= 0xffff_ffff,
                0 <= h <= 0xffff_ffff,
        ;
    }
    let area = intersection_width as u64 * intersection_height as u64;
    let capped = if area <= requested_area {
        area
    } else {
        requested_area
    };
    if capped <= target_area {
        capped
    } else {
        target_area
    }
}

/// A planned readback never claims more overlap than was requested, and a request
/// that stays within the target overlaps it completely.
pub proof fn intersection_never_exceeds_request(
    backend: SelectedReadbackPlanBackend,
    requested: MonitorCaptureBounds,
    target: MonitorCaptureBounds,
    frame: ImageBounds,
)
    requires
        spec_plan_selected_readback(backend, requested, target, frame) is Ok,
    ensures
        ({
            let plan = spec_plan_selected_readback(backend, requested, target, frame)->Ok_0;
            &&& plan.requested_area > 0
            &&& plan.requested_target_intersection_area <= plan.requested_area
            &&& plan.diagnostic_only && !plan.readiness_changed
            &&& plan.frame_pool_matches_capture_item
            &&& plan.spec_crop_within_target() && requested.width * requested.height <= target.width
                * target.height ==> plan.requested_target_intersection_area == plan.requested_area
        }),
{
    let plan = spec_plan_selected_readback(backend, requested, target, frame)->Ok_0;
    let rw = requested.width as int;
    let rh = requested.height as int;
    assert(rw * rh > 0) by (nonlinear_arith)
        requires
            rw > 0,
            rh > 0,
    ;
    assert(rw * rh <= 0xffff_ffff * 0xffff_ffff) by (nonlinear_arith)
        requires
            0 <= rw <= 0xffff_ffff,
            0 <= rh <= 0xffff_ffff,
    ;
}

} // verus!
