//! The DXGI selected-output bridge dry run: acquire a frame, read the selection back and
//! validate every output bridge on it, without any output side effect.
use vstd::prelude::*;

use crate::capture::MonitorCaptureBounds;
use crate::clock::{elapsed_ms_u128, instant_now};
use crate::d3d11_frame::D3d11TextureFrameFormat;
use crate::dxgi_output::DxgiOutputRankingEvidence;
use crate::dxgi_output_bridge_plan::{plan_dxgi_selected_output_bridge, DxgiSelectedOutputBridgePlan};
use crate::dxgi_smoke::identity_indices;
use crate::output::{CropRect, ImageBounds, SelectedImageContract};
use crate::selected_image_bridge::{SelectedOutputBridgeDryRunDiagnostic, SelectedOutputBridgeDryRunReport};
use crate::selected_readback_plan::{spec_plan_selected_readback, SelectedReadbackPlan, SelectedReadbackPlanBackend};
use crate::win32_desktop_update_pulse::DesktopUpdatePulseReport;

verus! {

/// How far a dry run got.
#[derive(Debug, Clone, Copy, PartialEq, Eq, Structural)]
pub enum DxgiSelectedOutputBridgeDryRunStage {
    NotAttempted,
    Started,
    TextureAcquired,
    SelectedReadback,
    BridgeValidated,
    FrameReleased,
    Stopped,
    Failed,
}

impl DxgiSelectedOutputBridgeDryRunStage {
    pub open spec fn spec_as_str(self) -> Seq<char> {
        match self {
            DxgiSelectedOutputBridgeDryRunStage::NotAttempted => "not-attempted"@,
            DxgiSelectedOutputBridgeDryRunStage::Started => "started"@,
            DxgiSelectedOutputBridgeDryRunStage::TextureAcquired => "texture-acquired"@,
            DxgiSelectedOutputBridgeDryRunStage::SelectedReadback => "selected-readback"@,
            DxgiSelectedOutputBridgeDryRunStage::BridgeValidated => "bridge-validated"@,
            DxgiSelectedOutputBridgeDryRunStage::FrameReleased => "frame-released"@,
            DxgiSelectedOutputBridgeDryRunStage::Stopped => "stopped"@,
            DxgiSelectedOutputBridgeDryRunStage::Failed => "failed"@,
        }
    }

    pub fn as_str(self) -> (r: &'static str)
        ensures
            r@ == self.spec_as_str(),
    {
        match self {
            DxgiSelectedOutputBridgeDryRunStage::NotAttempted => "not-attempted",
            DxgiSelectedOutputBridgeDryRunStage::Started => "started",
            DxgiSelectedOutputBridgeDryRunStage::TextureAcquired => "texture-acquired",
            DxgiSelectedOutputBridgeDryRunStage::SelectedReadback => "selected-readback",
            DxgiSelectedOutputBridgeDryRunStage::BridgeValidated => "bridge-validated",
            DxgiSelectedOutputBridgeDryRunStage::FrameReleased => "frame-released",
            DxgiSelectedOutputBridgeDryRunStage::Stopped => "stopped",
            DxgiSelectedOutputBridgeDryRunStage::Failed => "failed",
        }
    }
}

/// What a dry run did.
#[derive(Debug, Clone)]
pub struct DxgiSelectedOutputBridgeDryRunReport {
    pub attempted: bool,
    pub ok: bool,
    pub stage: DxgiSelectedOutputBridgeDryRunStage,
    pub elapsed_ms: u128,
    pub frame_id: Option<u64>,
    pub width: Option<u32>,
    pub height: Option<u32>,
    pub format: Option<String>,
    pub requested_bounds: MonitorCaptureBounds,
    pub output_bounds: Option<MonitorCaptureBounds>,
    pub adapter_index: Option<u32>,
    pub output_index: Option<u32>,
    pub output_ranking: Option<DxgiOutputRankingEvidence>,
    pub desktop_pulse: Option<DesktopUpdatePulseReport>,
    pub crop: Option<CropRect>,
    pub selected_readback_plan: Option<SelectedReadbackPlan>,
    pub selected_output_ready_planning_only: bool,
    pub selected_image: Option<SelectedImageContract>,
    pub bridge: Option<SelectedOutputBridgeDryRunReport>,
    pub action_diagnostics: Vec<SelectedOutputBridgeDryRunDiagnostic>,
    pub bridge_validated: bool,
    pub selected_only: bool,
    pub png_signature_valid: bool,
    pub released_frame: bool,
    pub stopped: bool,
    pub error: Option<String>,
}

impl DxgiSelectedOutputBridgeDryRunReport {
    /// The report of a dry run that failed at `stage` (a run that never started is
    /// reported as failed) with nothing acquired.
    pub open spec fn spec_failed_at(self, stage: DxgiSelectedOutputBridgeDryRunStage, error: Seq<char>) -> bool {
        &&& self.attempted && !self.ok
        &&& self.stage == (if stage is NotAttempted {
            DxgiSelectedOutputBridgeDryRunStage::Failed
        } else {
            stage
        })
        &&& self.frame_id is None && self.width is None && self.height is None
        &&& self.format is None
        &&& self.output_bounds is None && self.adapter_index is None && self.output_index is None
        &&& self.output_ranking is None && self.desktop_pulse is None
        &&& self.crop is None && self.selected_readback_plan is None
        &&& !self.selected_output_ready_planning_only
        &&& self.selected_image is None && self.bridge is None
        &&& self.action_diagnostics@.len() == 0
        &&& !self.bridge_validated && !self.selected_only && !self.png_signature_valid
        &&& !self.released_frame && !self.stopped
        &&& self.error matches Some(text) && text@ == error
    }

    pub fn failed(
        stage: DxgiSelectedOutputBridgeDryRunStage,
        elapsed_ms: u128,
        requested_bounds: MonitorCaptureBounds,
        error: String,
    ) -> (r: Self)
        ensures
            r.spec_failed_at(stage, error@),
            r.elapsed_ms == elapsed_ms,
            r.requested_bounds == requested_bounds,
    {
        let reported_stage = match stage {
            DxgiSelectedOutputBridgeDryRunStage::NotAttempted => DxgiSelectedOutputBridgeDryRunStage::Failed,
            _ => stage,
        };
        Self {
            attempted: true,
            ok: false,
            stage: reported_stage,
            elapsed_ms,
            frame_id: None,
            width: None,
            height: None,
            format: None,
            requested_bounds,
            output_bounds: None,
            adapter_index: None,
            output_index: None,
            output_ranking: None,
            desktop_pulse: None,
            crop: None,
            selected_readback_plan: None,
            selected_output_ready_planning_only: false,
            selected_image: None,
            bridge: None,
            action_diagnostics: Vec::new(),
            bridge_validated: false,
            selected_only: false,
            png_signature_valid: false,
            released_frame: false,
            stopped: false,
            error: Some(error),
        }
    }
}

/// Runs the dry run for a desktop selection. Empty bounds fail before anything is
/// started; past that, this build has no desktop duplication, so the run fails as
/// requiring Windows.
pub fn run_dxgi_selected_output_bridge_dry_run(bounds: MonitorCaptureBounds) -> (r:
    DxgiSelectedOutputBridgeDryRunReport)
    ensures
        r.requested_bounds == bounds,
        r.spec_failed_at(
            DxgiSelectedOutputBridgeDryRunStage::NotAttempted,
            if bounds.spec_is_empty() {
                "empty selected output bridge bounds: "@ + bounds.spec_debug()
            } else {
                "DXGI selected output bridge dry-run requires Windows"@
            },
        ),
{
    let started_at = instant_now();
    let error = if bounds.is_empty() {
        let mut text = String::from_str("empty selected output bridge bounds: ");
        bounds.push_debug(&mut text);
        text
    } else {
        String::from_str("DXGI selected output bridge dry-run requires Windows")
    };
    DxgiSelectedOutputBridgeDryRunReport::failed(
        DxgiSelectedOutputBridgeDryRunStage::NotAttempted,
        elapsed_ms_u128(&started_at),
        bounds,
        error,
    )
}

/// The errors of a run joined by `; `: the primary error, then a failed release, then a
/// failed stop.
pub open spec fn spec_combine_errors(
    primary: Option<Seq<char>>,
    release_error: Option<Seq<char>>,
    stop_error: Option<Seq<char>>,
) -> Option<Seq<char>> {
    let parts = (match primary {
        Some(e) => seq![e],
        None => Seq::empty(),
    }) + (match release_error {
        Some(e) => seq!["release failed: "@ + e],
        None => Seq::empty(),
    }) + (match stop_error {
        Some(e) => seq!["stop failed: "@ + e],
        None => Seq::empty(),
    });
    if parts.len() == 0 {
        None
    } else if parts.len() == 1 {
        Some(parts[0])
    } else if parts.len() == 2 {
        Some(parts[0] + "; "@ + parts[1])
    } else {
        Some(parts[0] + "; "@ + parts[1] + "; "@ + parts[2])
    }
}

/// The text of an optional string.
pub open spec fn opt_text(value: Option<String>) -> Option<Seq<char>> {
    match value {
        Some(s) => Some(s@),
        None => None,
    }
}

fn append_part(joined: Option<String>, part: String) -> (r: Option<String>)
    ensures
        r matches Some(text) && text@ == match joined {
            Some(prefix) => prefix@ + "; "@ + part@,
            None => part@,
        },
{
    match joined {
        Some(prefix) => {
            let mut text = prefix;
            text.append("; ");
            text.append(part.as_str());
            Some(text)
        },
        None => Some(part),
    }
}

pub fn combine_errors(
    primary: Option<String>,
    release_error: Option<String>,
    stop_error: Option<String>,
) -> (r: Option<String>)
    ensures
        opt_text(r) == spec_combine_errors(opt_text(primary), opt_text(release_error), opt_text(stop_error)),
{
    let mut joined: Option<String> = None;
    match primary {
        Some(e) => {
            joined = Some(e);
        },
        None => {},
    }
    match release_error {
        Some(e) => {
            let mut part = String::from_str("release failed: ");
            part.append(e.as_str());
            joined = append_part(joined, part);
        },
        None => {},
    }
    match stop_error {
        Some(e) => {
            let mut part = String::from_str("stop failed: ");
            part.append(e.as_str());
            joined = append_part(joined, part);
        },
        None => {},
    }
    proof {
        let p = opt_text(primary);
        let rel = opt_text(release_error);
        let st = opt_text(stop_error);
        let parts = (match p {
            Some(e) => seq![e],
            None => Seq::<Seq<char>>::empty(),
        }) + (match rel {
            Some(e) => seq!["release failed: "@ + e],
            None => Seq::<Seq<char>>::empty(),
        }) + (match st {
            Some(e) => seq!["stop failed: "@ + e],
            None => Seq::<Seq<char>>::empty(),
        });
        if parts.len() == 3 {
            assert(parts[0] + "; "@ + parts[1] + "; "@ + parts[2] =~= (parts[0] + "; "@ + parts[1])
                + "; "@ + parts[2]);
        }
    }
    joined
}

/// What a dry run learned of the duplicated output once the duplication started.
#[derive(Debug, Clone)]
pub struct DxgiBridgeDryRunOutput {
    pub output_bounds: Option<MonitorCaptureBounds>,
    pub output_identity: Option<(u32, u32)>,
    pub output_ranking: Option<DxgiOutputRankingEvidence>,
    pub desktop_pulse: Option<DesktopUpdatePulseReport>,
}

impl DxgiSelectedOutputBridgeDryRunReport {
    /// The report carries what was learned of the output.
    pub open spec fn spec_carries_output(self, output: DxgiBridgeDryRunOutput) -> bool {
        &&& self.output_bounds == output.output_bounds
        &&& (self.adapter_index, self.output_index) == identity_indices(output.output_identity)
        &&& self.output_ranking == output.output_ranking
        &&& self.desktop_pulse == output.desktop_pulse
    }

    /// A run that failed at `stage` after the duplication started, before any selected
    /// image was built.
    pub open spec fn spec_failed_past_start(self, stage: DxgiSelectedOutputBridgeDryRunStage) -> bool {
        &&& self.attempted && !self.ok && self.stage == stage
        &&& self.frame_id is None && self.width is None && self.height is None
        &&& self.format is None
        &&& self.crop is None && self.selected_readback_plan is None
        &&& !self.selected_output_ready_planning_only
        &&& self.selected_image is None && self.bridge is None
        &&& self.action_diagnostics@.len() == 0
        &&& !self.bridge_validated && !self.selected_only && !self.png_signature_valid
    }

    fn set_output(&mut self, output: DxgiBridgeDryRunOutput)
        ensures
            final(self).spec_carries_output(output),
            *final(self) == (DxgiSelectedOutputBridgeDryRunReport {
                output_bounds: final(self).output_bounds,
                adapter_index: final(self).adapter_index,
                output_index: final(self).output_index,
                output_ranking: final(self).output_ranking,
                desktop_pulse: final(self).desktop_pulse,
                ..*old(self)
            }),
    {
        let (adapter_index, output_index) = match output.output_identity {
            Some((adapter, index)) => (Some(adapter), Some(index)),
            None => (None, None),
        };
        self.output_bounds = output.output_bounds;
        self.adapter_index = adapter_index;
        self.output_index = output_index;
        self.output_ranking = output.output_ranking;
        self.desktop_pulse = output.desktop_pulse;
    }
}

/// The report of a dry run whose duplication started but whose texture capture failed;
/// the duplication was then stopped, which may have failed too.
pub fn dxgi_bridge_dry_run_capture_failed(
    bounds: MonitorCaptureBounds,
    elapsed_ms: u128,
    output: DxgiBridgeDryRunOutput,
    error: String,
    stop_error: Option<String>,
) -> (r: DxgiSelectedOutputBridgeDryRunReport)
    ensures
        r.spec_failed_past_start(DxgiSelectedOutputBridgeDryRunStage::Started),
        r.elapsed_ms == elapsed_ms && r.requested_bounds == bounds,
        r.spec_carries_output(output),
        !r.released_frame && r.stopped == stop_error is None,
        r.error matches Some(text) && text@ == match stop_error {
            None => error@,
            Some(e) => error@ + "; stop failed: "@ + e@,
        },
{
    let stopped = stop_error.is_none();
    let text = match stop_error {
        None => error,
        Some(e) => {
            let mut text = error;
            text.append("; stop failed: ");
            text.append(e.as_str());
            text
        },
    };
    let mut report = DxgiSelectedOutputBridgeDryRunReport::failed(
        DxgiSelectedOutputBridgeDryRunStage::Started,
        elapsed_ms,
        bounds,
        text,
    );
    report.set_output(output);
    report.stopped = stopped;
    report
}

/// The selected-output plan of a dry run that acquired a texture: the selection mapped
/// into the frame of the duplicated output, which needs that output's desktop bounds.
pub fn dxgi_bridge_dry_run_plan(
    bounds: MonitorCaptureBounds,
    output_bounds: Option<MonitorCaptureBounds>,
    frame: ImageBounds,
) -> (r: Result<DxgiSelectedOutputBridgePlan, String>)
    ensures
        match output_bounds {
            None => r matches Err(text) && text@ == "DXGI output DesktopCoordinates are unavailable"@,
            Some(target) => match spec_plan_selected_readback(
                SelectedReadbackPlanBackend::DxgiOutput,
                bounds,
                target,
                frame,
            ) {
                Ok(plan) => r == Ok::<DxgiSelectedOutputBridgePlan, String>(
                    DxgiSelectedOutputBridgePlan {
                        selection: plan.mapping.crop.spec_as_selection_rect(),
                        crop: plan.mapping.crop,
                        selected_readback_plan: plan,
                    },
                ),
                Err(e) => r matches Err(text) && text@ == e.spec_message(),
            },
        },
{
    match output_bounds {
        None => Err(String::from_str("DXGI output DesktopCoordinates are unavailable")),
        Some(target) => plan_dxgi_selected_output_bridge(bounds, target, frame),
    }
}

/// The report of a dry run whose texture was acquired but whose selection could not be
/// planned; the frame was released and the duplication stopped, either of which may
/// have failed too.
pub fn dxgi_bridge_dry_run_plan_failed(
    bounds: MonitorCaptureBounds,
    elapsed_ms: u128,
    output: DxgiBridgeDryRunOutput,
    error: String,
    release_error: Option<String>,
    stop_error: Option<String>,
) -> (r: DxgiSelectedOutputBridgeDryRunReport)
    ensures
        r.spec_failed_past_start(DxgiSelectedOutputBridgeDryRunStage::TextureAcquired),
        r.elapsed_ms == elapsed_ms && r.requested_bounds == bounds,
        r.spec_carries_output(output),
        r.released_frame == release_error is None && r.stopped == stop_error is None,
        opt_text(r.error) == spec_combine_errors(
            Some(error@),
            opt_text(release_error),
            opt_text(stop_error),
        ),
{
    let released_frame = release_error.is_none();
    let stopped = stop_error.is_none();
    let combined = combine_errors(Some(error), release_error, stop_error);
    let text = match combined {
        Some(text) => text,
        None => String::from_str("selection build failed"),
    };
    let mut report = DxgiSelectedOutputBridgeDryRunReport::failed(
        DxgiSelectedOutputBridgeDryRunStage::TextureAcquired,
        elapsed_ms,
        bounds,
        text,
    );
    report.set_output(output);
    report.released_frame = released_frame;
    report.stopped = stopped;
    report
}

/// The furthest stage of a dry run past its plan: the selected readback, then the
/// validated bridge, the frame's release and the stop, the last three counting only
/// once the bridge was validated.
pub open spec fn spec_bridge_dry_run_stage(validated: bool, released: bool, stopped: bool) -> DxgiSelectedOutputBridgeDryRunStage {
    if !validated {
        DxgiSelectedOutputBridgeDryRunStage::SelectedReadback
    } else if stopped {
        DxgiSelectedOutputBridgeDryRunStage::Stopped
    } else if released {
        DxgiSelectedOutputBridgeDryRunStage::FrameReleased
    } else {
        DxgiSelectedOutputBridgeDryRunStage::BridgeValidated
    }
}

/// Every action's dry run found the PNG signature.
pub open spec fn all_png_signatures_valid(diagnostics: Seq<SelectedOutputBridgeDryRunDiagnostic>) -> bool {
    forall|i: int| 0 <= i < diagnostics.len() ==> (#[trigger] diagnostics[i]).png_signature_valid
}

fn copy_diagnostics(report: &SelectedOutputBridgeDryRunReport) -> (r: (
    Vec<SelectedOutputBridgeDryRunDiagnostic>,
    bool,
))
    ensures
        r.0@ == report.diagnostics@,
        r.1 == all_png_signatures_valid(report.diagnostics@),
{
    let mut copied: Vec<SelectedOutputBridgeDryRunDiagnostic> = Vec::new();
    let mut all_valid = true;
    let mut i: usize = 0;
    while i < report.diagnostics.len()
        invariant
            i <= report.diagnostics@.len(),
            copied@ == report.diagnostics@.subrange(0, i as int),
            all_valid == all_png_signatures_valid(report.diagnostics@.subrange(0, i as int)),
        decreases report.diagnostics@.len() - i,
    {
        let diagnostic = report.diagnostics[i];
        copied.push(diagnostic);
        proof {
            let before = report.diagnostics@.subrange(0, i as int);
            let after = report.diagnostics@.subrange(0, i + 1);
            assert(after =~= before.push(diagnostic));
            if all_valid && diagnostic.png_signature_valid {
                assert forall|k: int| 0 <= k < after.len() implies (#[trigger] after[k]).png_signature_valid by {
                    if k < before.len() {
                        assert(after[k] == before[k]);
                    }
                }
            }
            if !all_valid {
                let k = choose|k: int| 0 <= k < before.len() && !(#[trigger] before[k]).png_signature_valid;
                assert(after[k] == before[k]);
            }
            if !diagnostic.png_signature_valid {
                assert(after[i as int] == diagnostic);
            }
        }
        all_valid = all_valid && diagnostic.png_signature_valid;
        i = i + 1;
    }
    assert(report.diagnostics@.subrange(0, i as int) =~= report.diagnostics@);
    (copied, all_valid)
}

fn format_text(format: D3d11TextureFrameFormat) -> (r: String)
    ensures
        r@ == format.spec_debug_name(),
{
    String::from_str(format.debug_name())
}

/// The report of a dry run that acquired a texture and planned its selection, from
/// what building and dry-running the selected PNG, the frame's release and the stop
/// reported.
pub fn finish_dxgi_selected_output_bridge_dry_run(
    bounds: MonitorCaptureBounds,
    elapsed_ms: u128,
    frame_id: u64,
    format: D3d11TextureFrameFormat,
    output: DxgiBridgeDryRunOutput,
    plan: DxgiSelectedOutputBridgePlan,
    bridge: Result<(SelectedImageContract, SelectedOutputBridgeDryRunReport), String>,
    release_error: Option<String>,
    stop_error: Option<String>,
) -> (r: DxgiSelectedOutputBridgeDryRunReport)
    ensures
        r.attempted && r.elapsed_ms == elapsed_ms,
        r.frame_id == Some(frame_id),
        r.width == Some(bounds.width) && r.height == Some(bounds.height),
        r.format matches Some(text) && text@ == format.spec_debug_name(),
        r.requested_bounds == bounds && r.spec_carries_output(output),
        r.crop == Some(plan.crop) && r.selected_readback_plan == Some(plan.selected_readback_plan),
        r.selected_output_ready_planning_only == plan.selected_readback_plan.spec_selected_output_ready(),
        r.selected_image == match bridge {
            Ok((image, _)) => Some(image),
            Err(_) => None,
        },
        r.bridge == match bridge {
            Ok((_, report)) => Some(report),
            Err(_) => None,
        },
        r.action_diagnostics@ == match bridge {
            Ok((_, report)) => report.diagnostics@,
            Err(_) => Seq::empty(),
        },
        r.bridge_validated == (bridge matches Ok((_, report)) && report.spec_is_valid()),
        r.selected_only == (bridge matches Ok((_, report)) && report.image.selected_only),
        r.png_signature_valid == (bridge matches Ok((_, report)) && all_png_signatures_valid(
            report.diagnostics@,
        )),
        r.released_frame == release_error is None && r.stopped == stop_error is None,
        r.stage == spec_bridge_dry_run_stage(bridge is Ok, release_error is None, stop_error is None),
        opt_text(r.error) == spec_combine_errors(
            match bridge {
                Ok(_) => None,
                Err(e) => Some(e@),
            },
            opt_text(release_error),
            opt_text(stop_error),
        ),
        r.ok == (r.error is None && r.bridge_validated && r.released_frame && r.stopped),
{
    let released_frame = release_error.is_none();
    let stopped = stop_error.is_none();
    let validated = bridge.is_ok();
    let stage = if !validated {
        DxgiSelectedOutputBridgeDryRunStage::SelectedReadback
    } else if stopped {
        DxgiSelectedOutputBridgeDryRunStage::Stopped
    } else if released_frame {
        DxgiSelectedOutputBridgeDryRunStage::FrameReleased
    } else {
        DxgiSelectedOutputBridgeDryRunStage::BridgeValidated
    };
    let (selected_image, bridge_report, action_diagnostics, bridge_valid, selected_only, png_valid, bridge_error) =
        match bridge {
        Ok((image, report)) => {
            let (copied, all_valid) = copy_diagnostics(&report);
            let valid = report.is_valid();
            let only = report.image.selected_only;
            (Some(image), Some(report), copied, valid, only, all_valid, None)
        },
        Err(e) => (None, None, Vec::new(), false, false, false, Some(e)),
    };
    let error = combine_errors(bridge_error, release_error, stop_error);
    let ok = error.is_none() && bridge_valid && released_frame && stopped;
    let (adapter_index, output_index) = match output.output_identity {
        Some((adapter, index)) => (Some(adapter), Some(index)),
        None => (None, None),
    };
    let ready = plan.selected_output_ready_planning_only();
    DxgiSelectedOutputBridgeDryRunReport {
        attempted: true,
        ok,
        stage,
        elapsed_ms,
        frame_id: Some(frame_id),
        width: Some(bounds.width),
        height: Some(bounds.height),
        format: Some(format_text(format)),
        requested_bounds: bounds,
        output_bounds: output.output_bounds,
        adapter_index,
        output_index,
        output_ranking: output.output_ranking,
        desktop_pulse: output.desktop_pulse,
        crop: Some(plan.crop),
        selected_readback_plan: Some(plan.selected_readback_plan),
        selected_output_ready_planning_only: ready,
        selected_image,
        bridge: bridge_report,
        action_diagnostics,
        bridge_validated: bridge_valid,
        selected_only,
        png_signature_valid: png_valid,
        released_frame,
        stopped,
        error,
    }
}

} // verus!
