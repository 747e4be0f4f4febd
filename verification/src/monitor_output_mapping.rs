//! Mapping a desktop selection onto one monitor's captured frame.
use vstd::prelude::*;

use crate::capture::MonitorCaptureBounds;
use crate::dxgi_output::{max_int, min_int};
use crate::output::{clamped_crop_is_selection_inside_image, CropRect, ImageBounds, SelectionRect};

verus! {

/// Why a desktop selection cannot be mapped onto a monitor frame.
#[derive(Debug, Clone, Copy, PartialEq, Eq, Structural)]
pub enum MonitorOutputSelectionMappingError {
    EmptyMonitorBounds,
    MonitorBoundsOverflow,
    EmptyFrameBounds,
    InvalidDesktopSelection,
    SelectionOutsideMonitor,
    LocalSelectionOverflow,
}

impl MonitorOutputSelectionMappingError {
    pub open spec fn spec_message(self) -> Seq<char> {
        match self {
            MonitorOutputSelectionMappingError::EmptyMonitorBounds => "monitor bounds are empty"@,
            MonitorOutputSelectionMappingError::MonitorBoundsOverflow =>
                "monitor bounds overflow desktop coordinate space"@,
            MonitorOutputSelectionMappingError::EmptyFrameBounds => "monitor frame bounds are empty"@,
            MonitorOutputSelectionMappingError::InvalidDesktopSelection =>
                "desktop selection must have non-zero area"@,
            MonitorOutputSelectionMappingError::SelectionOutsideMonitor =>
                "desktop selection does not intersect monitor bounds"@,
            MonitorOutputSelectionMappingError::LocalSelectionOverflow =>
                "monitor-local selection exceeds supported coordinate range"@,
        }
    }

    pub fn to_string(self) -> (r: String)
        ensures
            r@ == self.spec_message(),
    {
        let text = match self {
            MonitorOutputSelectionMappingError::EmptyMonitorBounds => "monitor bounds are empty",
            MonitorOutputSelectionMappingError::MonitorBoundsOverflow =>
                "monitor bounds overflow desktop coordinate space",
            MonitorOutputSelectionMappingError::EmptyFrameBounds => "monitor frame bounds are empty",
            MonitorOutputSelectionMappingError::InvalidDesktopSelection =>
                "desktop selection must have non-zero area",
            MonitorOutputSelectionMappingError::SelectionOutsideMonitor =>
                "desktop selection does not intersect monitor bounds",
            MonitorOutputSelectionMappingError::LocalSelectionOverflow =>
                "monitor-local selection exceeds supported coordinate range",
        };
        String::from_str(text)
    }
}

/// A desktop selection mapped into a monitor's frame.
#[derive(Debug, Clone, Copy, PartialEq, Eq, Structural)]
pub struct MonitorOutputSelectionMapping {
    pub monitor_bounds: MonitorCaptureBounds,
    pub frame_bounds: ImageBounds,
    pub desktop_selection: SelectionRect,
    pub monitor_local_selection: SelectionRect,
    pub crop: CropRect,
    pub was_clamped_to_monitor: bool,
    pub frame_matches_monitor_bounds: bool,
}

impl MonitorOutputSelectionMapping {
    pub fn fully_inside_monitor(self) -> (r: bool)
        ensures
            r == !self.was_clamped_to_monitor,
    {
        !self.was_clamped_to_monitor
    }
}

pub open spec fn fits_i32(v: int) -> bool {
    i32::MIN <= v <= i32::MAX
}

/// The mapping: the selection (normalized) is intersected with the monitor, moved to
/// monitor-local coordinates, and clamped to the frame.
pub open spec fn spec_map_desktop_selection(
    monitor: MonitorCaptureBounds,
    frame: ImageBounds,
    selection: SelectionRect,
) -> Result<MonitorOutputSelectionMapping, MonitorOutputSelectionMappingError> {
    if monitor.spec_is_empty() {
        Err(MonitorOutputSelectionMappingError::EmptyMonitorBounds)
    } else if monitor.spec_right() is None || monitor.spec_bottom() is None {
        Err(MonitorOutputSelectionMappingError::MonitorBoundsOverflow)
    } else if frame.spec_is_empty() {
        Err(MonitorOutputSelectionMappingError::EmptyFrameBounds)
    } else if !selection.spec_normalized().spec_is_valid() {
        Err(MonitorOutputSelectionMappingError::InvalidDesktopSelection)
    } else {
        let s = selection.spec_normalized();
        let mr = monitor.spec_right()->Some_0 as int;
        let mb = monitor.spec_bottom()->Some_0 as int;
        let left = max_int(s.x as int, monitor.origin_x as int);
        let top = max_int(s.y as int, monitor.origin_y as int);
        let right = min_int(s.spec_right(), mr);
        let bottom = min_int(s.spec_bottom(), mb);
        if right <= left || bottom <= top {
            Err(MonitorOutputSelectionMappingError::SelectionOutsideMonitor)
        } else if !fits_i32(left - monitor.origin_x) || !fits_i32(top - monitor.origin_y)
            || !fits_i32(right - left) || !fits_i32(bottom - top) {
            Err(MonitorOutputSelectionMappingError::LocalSelectionOverflow)
        } else {
            let local = SelectionRect {
                x: (left - monitor.origin_x) as i32,
                y: (top - monitor.origin_y) as i32,
                width: (right - left) as i32,
                height: (bottom - top) as i32,
            };
            match local.spec_clamp_to(frame) {
                None => Err(MonitorOutputSelectionMappingError::SelectionOutsideMonitor),
                Some(clamped) => Ok(
                    MonitorOutputSelectionMapping {
                        monitor_bounds: monitor,
                        frame_bounds: frame,
                        desktop_selection: s,
                        monitor_local_selection: local,
                        crop: clamped.crop,
                        was_clamped_to_monitor: left != s.x || top != s.y || right
                            != s.spec_right() || bottom != s.spec_bottom()
                            || clamped.crop.spec_as_selection_rect() != local,
                        frame_matches_monitor_bounds: monitor.width == frame.width
                            && monitor.height == frame.height,
                    },
                ),
            }
        }
    }
}

fn checked_i32(value: i64) -> (r: Result<i32, MonitorOutputSelectionMappingError>)
    ensures
        fits_i32(value as int) ==> r == Ok::<i32, MonitorOutputSelectionMappingError>(value as i32),
        !fits_i32(value as int) ==> r == Err::<i32, MonitorOutputSelectionMappingError>(
            MonitorOutputSelectionMappingError::LocalSelectionOverflow,
        ),
{
    if value < i32::MIN as i64 || value > i32::MAX as i64 {
        Err(MonitorOutputSelectionMappingError::LocalSelectionOverflow)
    } else {
        Ok(value as i32)
    }
}

pub fn map_desktop_selection_to_output_frame(
    monitor_bounds: MonitorCaptureBounds,
    frame_bounds: ImageBounds,
    desktop_selection: SelectionRect,
) -> (r: Result<MonitorOutputSelectionMapping, MonitorOutputSelectionMappingError>)
    ensures
        r == spec_map_desktop_selection(monitor_bounds, frame_bounds, desktop_selection),
{
    if monitor_bounds.is_empty() {
        return Err(MonitorOutputSelectionMappingError::EmptyMonitorBounds);
    }
    let monitor_right = match monitor_bounds.right() {
        Some(v) => v,
        None => return Err(MonitorOutputSelectionMappingError::MonitorBoundsOverflow),
    };
    let monitor_bottom = match monitor_bounds.bottom() {
        Some(v) => v,
        None => return Err(MonitorOutputSelectionMappingError::MonitorBoundsOverflow),
    };
    if frame_bounds.is_empty() {
        return Err(MonitorOutputSelectionMappingError::EmptyFrameBounds);
    }
    let desktop_selection = desktop_selection.normalized();
    if !desktop_selection.is_valid() {
        return Err(MonitorOutputSelectionMappingError::InvalidDesktopSelection);
    }
    let monitor_left = monitor_bounds.origin_x as i64;
    let monitor_top = monitor_bounds.origin_y as i64;
    let monitor_right = monitor_right as i64;
    let monitor_bottom = monitor_bottom as i64;
    let selection_left = desktop_selection.x as i64;
    let selection_top = desktop_selection.y as i64;
    let selection_right = desktop_selection.right();
    let selection_bottom = desktop_selection.bottom();
    let intersection_left = if selection_left >= monitor_left {
        selection_left
    } else {
        monitor_left
    };
    let intersection_top = if selection_top >= monitor_top {
        selection_top
    } else {
        monitor_top
    };
    let intersection_right = if selection_right <= monitor_right {
        selection_right
    } else {
        monitor_right
    };
    let intersection_bottom = if selection_bottom <= monitor_bottom {
        selection_bottom
    } else {
        monitor_bottom
    };
    if intersection_right <= intersection_left || intersection_bottom <= intersection_top {
        return Err(MonitorOutputSelectionMappingError::SelectionOutsideMonitor);
    }
    let local_x = match checked_i32(intersection_left - monitor_left) {
        Ok(v) => v,
        Err(e) => return Err(e),
    };
    let local_y = match checked_i32(intersection_top - monitor_top) {
        Ok(v) => v,
        Err(e) => return Err(e),
    };
    let local_width = match checked_i32(intersection_right - intersection_left) {
        Ok(v) => v,
        Err(e) => return Err(e),
    };
    let local_height = match checked_i32(intersection_bottom - intersection_top) {
        Ok(v) => v,
        Err(e) => return Err(e),
    };
    let monitor_local_selection = SelectionRect::new(local_x, local_y, local_width, local_height);
    let crop = match monitor_local_selection.clamp_to(frame_bounds) {
        Some(clamped) => clamped.crop,
        None => return Err(MonitorOutputSelectionMappingError::SelectionOutsideMonitor),
    };
    let was_clamped_to_monitor = intersection_left != selection_left || intersection_top
        != selection_top || intersection_right != selection_right || intersection_bottom
        != selection_bottom || crop.as_selection_rect() != monitor_local_selection;
    Ok(
        MonitorOutputSelectionMapping {
            monitor_bounds,
            frame_bounds,
            desktop_selection,
            monitor_local_selection,
            crop,
            was_clamped_to_monitor,
            frame_matches_monitor_bounds: monitor_bounds.width == frame_bounds.width
                && monitor_bounds.height == frame_bounds.height,
        },
    )
}

/// A successful mapping yields a non-empty crop that lies inside the frame, and a
/// selection reported as fully inside the monitor was not cut by the monitor's edges.
pub proof fn mapped_crop_lies_inside_frame(
    monitor: MonitorCaptureBounds,
    frame: ImageBounds,
    selection: SelectionRect,
)
    requires
        spec_map_desktop_selection(monitor, frame, selection) is Ok,
    ensures
        ({
            let m = spec_map_desktop_selection(monitor, frame, selection)->Ok_0;
            &&& !m.crop.spec_is_empty()
            &&& m.crop.x + m.crop.width <= frame.width
            &&& m.crop.y + m.crop.height <= frame.height
            &&& !m.was_clamped_to_monitor ==> m.desktop_selection.x - monitor.origin_x
                == m.monitor_local_selection.x && m.desktop_selection.y - monitor.origin_y
                == m.monitor_local_selection.y && m.desktop_selection.width
                == m.monitor_local_selection.width && m.desktop_selection.height
                == m.monitor_local_selection.height
        }),
{
}


/// A selection that lies inside the monitor, on a frame of the monitor's size, maps to
/// the same rectangle moved to monitor-local coordinates, and its crop is that rectangle.
pub proof fn selection_inside_monitor_maps_unchanged(
    monitor: MonitorCaptureBounds,
    frame: ImageBounds,
    selection: SelectionRect,
)
    requires
        ({
            let s = selection.spec_normalized();
            &&& s.width > 0 && s.height > 0
            &&& monitor.width <= i32::MAX && monitor.height <= i32::MAX
            &&& monitor.origin_x + monitor.width <= i32::MAX
            &&& monitor.origin_y + monitor.height <= i32::MAX
            &&& monitor.origin_x <= s.x && s.x + s.width <= monitor.origin_x + monitor.width
            &&& monitor.origin_y <= s.y && s.y + s.height <= monitor.origin_y + monitor.height
            &&& frame.width == monitor.width && frame.height == monitor.height
            &&& s.x - monitor.origin_x <= i32::MAX && s.y - monitor.origin_y <= i32::MAX
        }),
    ensures
        ({
            let s = selection.spec_normalized();
            let local = SelectionRect {
                x: (s.x - monitor.origin_x) as i32,
                y: (s.y - monitor.origin_y) as i32,
                width: s.width,
                height: s.height,
            };
            &&& spec_map_desktop_selection(monitor, frame, selection) matches Ok(m)
            &&& m.desktop_selection == s
            &&& m.monitor_local_selection == local
            &&& s.x - monitor.origin_x == m.monitor_local_selection.x
            &&& s.y - monitor.origin_y == m.monitor_local_selection.y
            &&& m.crop == (CropRect {
                x: (s.x - monitor.origin_x) as u32,
                y: (s.y - monitor.origin_y) as u32,
                width: s.width as u32,
                height: s.height as u32,
            })
            &&& !m.was_clamped_to_monitor
            &&& m.frame_matches_monitor_bounds
        }),
{
    let s = selection.spec_normalized();
    let local = SelectionRect {
        x: (s.x - monitor.origin_x) as i32,
        y: (s.y - monitor.origin_y) as i32,
        width: s.width,
        height: s.height,
    };
    clamped_crop_is_selection_inside_image(local, frame);
    assert(local.spec_normalized() == local);
}

/// The crop of a mapping holds exactly the frame pixels whose desktop point lies both in
/// the selection and on the monitor: the crop is the selection cut at the monitor's edges,
/// moved by the monitor's origin, and cut again at the frame's edges.
pub proof fn mapped_crop_is_selection_on_monitor(
    monitor: MonitorCaptureBounds,
    frame: ImageBounds,
    selection: SelectionRect,
)
    ensures
        spec_map_desktop_selection(monitor, frame, selection) matches Ok(m) ==> forall|px: int, py: int|
            0 <= px < frame.width && 0 <= py < frame.height ==> (#[trigger] m.crop.spec_covers(px, py)
                <==> (selection.spec_normalized().spec_covers(px + monitor.origin_x, py + monitor.origin_y)
                && monitor.origin_x <= px + monitor.origin_x < monitor.origin_x + monitor.width
                && monitor.origin_y <= py + monitor.origin_y < monitor.origin_y + monitor.height)),
{
    if spec_map_desktop_selection(monitor, frame, selection) is Ok {
        let m = spec_map_desktop_selection(monitor, frame, selection)->Ok_0;
        clamped_crop_is_selection_inside_image(m.monitor_local_selection, frame);
        assert(m.monitor_local_selection.spec_normalized() == m.monitor_local_selection);
    }
}

} // verus!
