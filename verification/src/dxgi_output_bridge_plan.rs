//! Planning the selected-output bridge on a ranked DXGI output.
use vstd::prelude::*;

use crate::capture::MonitorCaptureBounds;
use crate::output::{CropRect, ImageBounds, SelectionRect};
use crate::selected_readback_plan::{
    plan_selected_readback_from_desktop_bounds, spec_plan_selected_readback, SelectedReadbackPlan,
    SelectedReadbackPlanBackend,
};

verus! {

/// The selection, in output-frame coordinates, that the bridge reads back.
#[derive(Debug, Clone, Copy, PartialEq, Eq, Structural)]
pub struct DxgiSelectedOutputBridgePlan {
    pub selection: SelectionRect,
    pub crop: CropRect,
    pub selected_readback_plan: SelectedReadbackPlan,
}

impl DxgiSelectedOutputBridgePlan {
    /// Whether the plan is ready for selected output (a planning verdict only).
    pub fn selected_output_ready_planning_only(self) -> (r: bool)
        ensures
            r == self.selected_readback_plan.spec_selected_output_ready(),
    {
        self.selected_readback_plan.selected_output_ready()
    }
}

/// Plans the bridge for a desktop selection on a DXGI output: the readback plan's crop,
/// and the same crop as a selection rectangle; a planning error is passed on as text.
pub fn plan_dxgi_selected_output_bridge(
    bounds: MonitorCaptureBounds,
    output_bounds: MonitorCaptureBounds,
    frame_bounds: ImageBounds,
) -> (r: Result<DxgiSelectedOutputBridgePlan, String>)
    ensures
        match spec_plan_selected_readback(
            SelectedReadbackPlanBackend::DxgiOutput,
            bounds,
            output_bounds,
            frame_bounds,
        ) {
            Ok(plan) => r == Ok::<DxgiSelectedOutputBridgePlan, String>(
                DxgiSelectedOutputBridgePlan {
                    selection: plan.mapping.crop.spec_as_selection_rect(),
                    crop: plan.mapping.crop,
                    selected_readback_plan: plan,
                },
            ),
            Err(e) => r matches Err(text) && text@ == e.spec_message(),
        },
{
    let selected_readback_plan = match plan_selected_readback_from_desktop_bounds(
        SelectedReadbackPlanBackend::DxgiOutput,
        bounds,
        output_bounds,
        frame_bounds,
    ) {
        Ok(plan) => plan,
        Err(error) => {
            return Err(error.to_string());
        },
    };
    let crop = selected_readback_plan.mapping.crop;
    Ok(
        DxgiSelectedOutputBridgePlan {
            selection: crop.as_selection_rect(),
            crop,
            selected_readback_plan,
        },
    )
}

} // verus!
