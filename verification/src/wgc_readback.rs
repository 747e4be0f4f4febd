//! Where the selection lies in a captured monitor frame.
use vstd::prelude::*;

use crate::capture::MonitorCaptureBounds;
use crate::output::SelectionRect;

verus! {

/// Why the selected region of a monitor frame could not be read back.
#[derive(Debug, Clone, PartialEq, Eq)]
pub enum WgcSelectedReadbackError {
    MissingRequestedBounds,
    MissingTargetBounds,
    SelectionOutsideTarget,
    SelectionCoordinateOverflow,
    TextureReadback(String),
}

impl WgcSelectedReadbackError {
    pub open spec fn spec_message(&self) -> Seq<char> {
        match self {
            WgcSelectedReadbackError::MissingRequestedBounds =>
                "WGC selected readback requires requested bounds"@,
            WgcSelectedReadbackError::MissingTargetBounds =>
                "WGC selected readback requires target monitor bounds"@,
            WgcSelectedReadbackError::SelectionOutsideTarget =>
                "WGC selected readback selection is outside target monitor bounds"@,
            WgcSelectedReadbackError::SelectionCoordinateOverflow =>
                "WGC selected readback selection exceeds supported i32 coordinates"@,
            WgcSelectedReadbackError::TextureReadback(reason) =>
                "WGC selected texture readback failed: "@ + reason@,
        }
    }

    pub fn to_string(&self) -> (r: String)
        ensures
            r@ == self.spec_message(),
    {
        let mut s = String::new();
        match self {
            WgcSelectedReadbackError::MissingRequestedBounds => {
                s.append("WGC selected readback requires requested bounds");
            },
            WgcSelectedReadbackError::MissingTargetBounds => {
                s.append("WGC selected readback requires target monitor bounds");
            },
            WgcSelectedReadbackError::SelectionOutsideTarget => {
                s.append("WGC selected readback selection is outside target monitor bounds");
            },
            WgcSelectedReadbackError::SelectionCoordinateOverflow => {
                s.append("WGC selected readback selection exceeds supported i32 coordinates");
            },
            WgcSelectedReadbackError::TextureReadback(reason) => {
                s.append("WGC selected texture readback failed: ");
                s.append(reason.as_str());
            },
        }
        proof {
            assert(s@ =~= self.spec_message());
        }
        s
    }
}

/// The selection in the coordinates of the target monitor's frame: both rectangles must
/// be given, have edges inside the `i32` range, and the requested one must lie inside
/// the target.
pub open spec fn spec_selected_rect_from_wgc_monitor_bounds(
    requested: Option<MonitorCaptureBounds>,
    target: Option<MonitorCaptureBounds>,
) -> Result<SelectionRect, WgcSelectedReadbackError> {
    match (requested, target) {
        (None, _) => Err(WgcSelectedReadbackError::MissingRequestedBounds),
        (Some(_), None) => Err(WgcSelectedReadbackError::MissingTargetBounds),
        (Some(req), Some(tgt)) => match (req.spec_right(), req.spec_bottom(), tgt.spec_right(), tgt.spec_bottom()) {
            (Some(rr), Some(rb), Some(tr), Some(tb)) => if req.origin_x < tgt.origin_x
                || req.origin_y < tgt.origin_y || rr > tr || rb > tb {
                Err(WgcSelectedReadbackError::SelectionOutsideTarget)
            } else {
                Ok(
                    SelectionRect {
                        x: (req.origin_x - tgt.origin_x) as i32,
                        y: (req.origin_y - tgt.origin_y) as i32,
                        width: req.width as i32,
                        height: req.height as i32,
                    },
                )
            },
            _ => Err(WgcSelectedReadbackError::SelectionOutsideTarget),
        },
    }
}

pub fn selected_rect_from_wgc_monitor_bounds(
    requested: Option<MonitorCaptureBounds>,
    target: Option<MonitorCaptureBounds>,
) -> (r: Result<SelectionRect, WgcSelectedReadbackError>)
    ensures
        r == spec_selected_rect_from_wgc_monitor_bounds(requested, target),
{
    let requested = match requested {
        Some(b) => b,
        None => {
            return Err(WgcSelectedReadbackError::MissingRequestedBounds);
        },
    };
    let target = match target {
        Some(b) => b,
        None => {
            return Err(WgcSelectedReadbackError::MissingTargetBounds);
        },
    };
    let (requested_right, requested_bottom, target_right, target_bottom) = match (
        requested.right(),
        requested.bottom(),
        target.right(),
        target.bottom(),
    ) {
        (Some(rr), Some(rb), Some(tr), Some(tb)) => (rr, rb, tr, tb),
        _ => {
            return Err(WgcSelectedReadbackError::SelectionOutsideTarget);
        },
    };
    if requested.origin_x < target.origin_x || requested.origin_y < target.origin_y || requested_right
        > target_right || requested_bottom > target_bottom {
        return Err(WgcSelectedReadbackError::SelectionOutsideTarget);
    }
    if requested.width > i32::MAX as u32 || requested.height > i32::MAX as u32 {
        return Err(WgcSelectedReadbackError::SelectionCoordinateOverflow);
    }
    Ok(
        SelectionRect::new(
            requested.origin_x - target.origin_x,
            requested.origin_y - target.origin_y,
            requested.width as i32,
            requested.height as i32,
        ),
    )
}

/// A selection that lies inside its target monitor maps into the target's frame: it
/// starts at a non-negative offset and ends within the target's width and height.
pub proof fn selected_rect_stays_in_target_frame(
    requested: Option<MonitorCaptureBounds>,
    target: Option<MonitorCaptureBounds>,
)
    ensures
        spec_selected_rect_from_wgc_monitor_bounds(requested, target) matches Ok(rect) ==> {
            &&& rect.x >= 0 && rect.y >= 0
            &&& rect.x + rect.width <= target->0.width
            &&& rect.y + rect.height <= target->0.height
        },
{
}


/// A requested region that lies inside the target monitor (its right and bottom edges may
/// touch the target's) maps to the same region moved by the target's origin.
pub proof fn region_inside_target_maps_to_target_frame(
    requested: MonitorCaptureBounds,
    target: MonitorCaptureBounds,
)
    requires
        requested.width <= i32::MAX && requested.height <= i32::MAX,
        target.width <= i32::MAX && target.height <= i32::MAX,
        target.origin_x + target.width <= i32::MAX,
        target.origin_y + target.height <= i32::MAX,
        target.origin_x <= requested.origin_x,
        target.origin_y <= requested.origin_y,
        requested.origin_x + requested.width <= target.origin_x + target.width,
        requested.origin_y + requested.height <= target.origin_y + target.height,
    ensures
        spec_selected_rect_from_wgc_monitor_bounds(Some(requested), Some(target)) matches Ok(rect)
            && rect.x == requested.origin_x - target.origin_x && rect.y == requested.origin_y
            - target.origin_y && rect.width == requested.width && rect.height == requested.height,
{
}

/// A mapped region always is the requested region moved by the target's origin, and it
/// lies inside the target: the mapping succeeds exactly for regions inside the target.
pub proof fn mapped_region_is_requested_region_in_target(
    requested: MonitorCaptureBounds,
    target: MonitorCaptureBounds,
)
    ensures
        spec_selected_rect_from_wgc_monitor_bounds(Some(requested), Some(target)) matches Ok(rect)
            ==> {
            &&& rect.x == requested.origin_x - target.origin_x
            &&& rect.y == requested.origin_y - target.origin_y
            &&& rect.width == requested.width && rect.height == requested.height
            &&& target.origin_x <= requested.origin_x && target.origin_y <= requested.origin_y
            &&& requested.origin_x + requested.width <= target.origin_x + target.width
            &&& requested.origin_y + requested.height <= target.origin_y + target.height
        },
{
}

} // verus!
