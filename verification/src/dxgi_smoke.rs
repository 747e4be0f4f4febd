//! The DXGI texture and selected-readback smokes and their reports.
use vstd::prelude::*;

use crate::capture::MonitorCaptureBounds;
use crate::d3d11_frame::D3d11TextureFrameFormat;
use crate::dxgi_session::DxgiDuplicationSessionState;
use crate::dxgi_output_bridge_smoke::opt_text;
use crate::output::{has_png_signature, starts_with_png_signature, CropRect, ImageBounds, SelectedImageContract};
use crate::selected_readback_plan::{
    plan_selected_readback_from_desktop_bounds, spec_plan_selected_readback, SelectedReadbackPlan,
    SelectedReadbackPlanBackend,
};

verus! {

/// How far a texture smoke got.
#[derive(Debug, Clone, Copy, PartialEq, Eq, Structural)]
pub enum DxgiTextureSmokeStage {
    NotStarted,
    Started,
    TextureAcquired,
    FrameReleased,
    Stopped,
    Failed,
}

impl DxgiTextureSmokeStage {
    pub open spec fn spec_as_str(self) -> Seq<char> {
        match self {
            DxgiTextureSmokeStage::NotStarted => "not-started"@,
            DxgiTextureSmokeStage::Started => "started"@,
            DxgiTextureSmokeStage::TextureAcquired => "texture-acquired"@,
            DxgiTextureSmokeStage::FrameReleased => "frame-released"@,
            DxgiTextureSmokeStage::Stopped => "stopped"@,
            DxgiTextureSmokeStage::Failed => "failed"@,
        }
    }

    pub fn as_str(self) -> (r: &'static str)
        ensures
            r@ == self.spec_as_str(),
    {
        match self {
            DxgiTextureSmokeStage::NotStarted => "not-started",
            DxgiTextureSmokeStage::Started => "started",
            DxgiTextureSmokeStage::TextureAcquired => "texture-acquired",
            DxgiTextureSmokeStage::FrameReleased => "frame-released",
            DxgiTextureSmokeStage::Stopped => "stopped",
            DxgiTextureSmokeStage::Failed => "failed",
        }
    }
}

/// What a texture smoke did.
#[derive(Debug, Clone, PartialEq, Eq)]
pub struct DxgiTextureSmokeReport {
    pub attempted: bool,
    pub ok: bool,
    pub stage: DxgiTextureSmokeStage,
    pub elapsed_ms: u128,
    pub frame_id: Option<u64>,
    pub width: Option<u32>,
    pub height: Option<u32>,
    pub format: Option<D3d11TextureFrameFormat>,
    pub session_state: DxgiDuplicationSessionState,
    pub released_frame: bool,
    pub stopped: bool,
    pub error: Option<String>,
}

/// `stage: error`, the text of a smoke that failed at `stage`.
pub open spec fn spec_stage_error(stage: Seq<char>, error: Seq<char>) -> Seq<char> {
    stage + ": "@ + error
}

fn stage_error(stage: &str, error: &str) -> (r: String)
    ensures
        r@ == spec_stage_error(stage@, error@),
{
    let mut text = String::from_str(stage);
    text.append(": ");
    text.append(error);
    text
}

impl DxgiTextureSmokeReport {
    /// The report of a texture smoke that failed at `stage` with `error`.
    pub fn failed(
        stage: DxgiTextureSmokeStage,
        elapsed_ms: u128,
        session_state: DxgiDuplicationSessionState,
        error: &str,
    ) -> (r: Self)
        ensures
            r.attempted && !r.ok,
            r.stage == DxgiTextureSmokeStage::Failed,
            r.elapsed_ms == elapsed_ms,
            r.frame_id is None && r.width is None && r.height is None && r.format is None,
            r.session_state == session_state,
            !r.released_frame && !r.stopped,
            r.error matches Some(text) && text@ == spec_stage_error(stage.spec_as_str(), error@),
    {
        Self {
            attempted: true,
            ok: false,
            stage: DxgiTextureSmokeStage::Failed,
            elapsed_ms,
            frame_id: None,
            width: None,
            height: None,
            format: None,
            session_state,
            released_frame: false,
            stopped: false,
            error: Some(stage_error(stage.as_str(), error)),
        }
    }
}

/// How far a selected-readback smoke got.
#[derive(Debug, Clone, Copy, PartialEq, Eq, Structural)]
pub enum DxgiSelectedReadbackSmokeStage {
    NotStarted,
    Started,
    TextureAcquired,
    SelectedReadback,
    FrameReleased,
    Stopped,
    Failed,
}

impl DxgiSelectedReadbackSmokeStage {
    pub open spec fn spec_as_str(self) -> Seq<char> {
        match self {
            DxgiSelectedReadbackSmokeStage::NotStarted => "not-started"@,
            DxgiSelectedReadbackSmokeStage::Started => "started"@,
            DxgiSelectedReadbackSmokeStage::TextureAcquired => "texture-acquired"@,
            DxgiSelectedReadbackSmokeStage::SelectedReadback => "selected-readback"@,
            DxgiSelectedReadbackSmokeStage::FrameReleased => "frame-released"@,
            DxgiSelectedReadbackSmokeStage::Stopped => "stopped"@,
            DxgiSelectedReadbackSmokeStage::Failed => "failed"@,
        }
    }

    pub fn as_str(self) -> (r: &'static str)
        ensures
            r@ == self.spec_as_str(),
    {
        match self {
            DxgiSelectedReadbackSmokeStage::NotStarted => "not-started",
            DxgiSelectedReadbackSmokeStage::Started => "started",
            DxgiSelectedReadbackSmokeStage::TextureAcquired => "texture-acquired",
            DxgiSelectedReadbackSmokeStage::SelectedReadback => "selected-readback",
            DxgiSelectedReadbackSmokeStage::FrameReleased => "frame-released",
            DxgiSelectedReadbackSmokeStage::Stopped => "stopped",
            DxgiSelectedReadbackSmokeStage::Failed => "failed",
        }
    }
}

/// What a selected-readback smoke did.
#[derive(Debug, Clone, PartialEq)]
pub struct DxgiSelectedReadbackSmokeReport {
    pub attempted: bool,
    pub ok: bool,
    pub stage: DxgiSelectedReadbackSmokeStage,
    pub elapsed_ms: u128,
    pub frame_id: Option<u64>,
    pub width: Option<u32>,
    pub height: Option<u32>,
    pub requested_bounds: MonitorCaptureBounds,
    pub output_bounds: Option<MonitorCaptureBounds>,
    pub adapter_index: Option<u32>,
    pub output_index: Option<u32>,
    pub crop: Option<CropRect>,
    pub selected_readback_plan: Option<SelectedReadbackPlan>,
    pub selected_output_ready_planning_only: bool,
    pub format: Option<D3d11TextureFrameFormat>,
    pub selected_only: bool,
    pub bounded_crop_valid: bool,
    pub copy_subresource_region: bool,
    pub bgra_to_rgba: bool,
    pub png_signature_valid: bool,
    pub released_frame: bool,
    pub stopped: bool,
    pub error: Option<String>,
}

impl DxgiSelectedReadbackSmokeReport {
    /// Nothing was read back: no frame, no output, no crop, no image.
    pub open spec fn spec_has_nothing(self) -> bool {
        &&& !self.ok
        &&& self.stage == DxgiSelectedReadbackSmokeStage::Failed
        &&& self.frame_id is None && self.width is None && self.height is None
        &&& self.requested_bounds == MonitorCaptureBounds::spec_new(0, 0, 0, 0)
        &&& self.output_bounds is None && self.adapter_index is None && self.output_index is None
        &&& self.crop is None && self.selected_readback_plan is None
        &&& !self.selected_output_ready_planning_only
        &&& self.format is None
        &&& !self.selected_only && !self.bounded_crop_valid && !self.copy_subresource_region
        &&& !self.bgra_to_rgba && !self.png_signature_valid
        &&& !self.released_frame && !self.stopped
    }

    /// The report of a selected-readback smoke that failed at `stage` with `error`.
    pub fn failed(stage: DxgiSelectedReadbackSmokeStage, elapsed_ms: u128, error: &str) -> (r: Self)
        ensures
            r.attempted,
            r.spec_has_nothing(),
            r.elapsed_ms == elapsed_ms,
            r.error matches Some(text) && text@ == spec_stage_error(stage.spec_as_str(), error@),
    {
        Self {
            attempted: true,
            ok: false,
            stage: DxgiSelectedReadbackSmokeStage::Failed,
            elapsed_ms,
            frame_id: None,
            width: None,
            height: None,
            requested_bounds: MonitorCaptureBounds::new(0, 0, 0, 0),
            output_bounds: None,
            adapter_index: None,
            output_index: None,
            crop: None,
            selected_readback_plan: None,
            selected_output_ready_planning_only: false,
            format: None,
            selected_only: false,
            bounded_crop_valid: false,
            copy_subresource_region: false,
            bgra_to_rgba: false,
            png_signature_valid: false,
            released_frame: false,
            stopped: false,
            error: Some(stage_error(stage.as_str(), error)),
        }
    }
}

/// Runs the texture smoke. This build has no desktop duplication, so nothing is
/// attempted.
pub fn run_dxgi_texture_acquisition_smoke(bounds: MonitorCaptureBounds) -> (r: DxgiTextureSmokeReport)
    ensures
        !r.attempted && !r.ok,
        r.stage == DxgiTextureSmokeStage::Failed,
        r.elapsed_ms == 0,
        r.frame_id is None && r.width is None && r.height is None && r.format is None,
        r.session_state == DxgiDuplicationSessionState::Failed,
        !r.released_frame && !r.stopped,
        r.error matches Some(text) && text@ == "DXGI texture smoke requires Windows"@,
{
    DxgiTextureSmokeReport {
        attempted: false,
        ok: false,
        stage: DxgiTextureSmokeStage::Failed,
        elapsed_ms: 0,
        frame_id: None,
        width: None,
        height: None,
        format: None,
        session_state: DxgiDuplicationSessionState::Failed,
        released_frame: false,
        stopped: false,
        error: Some(String::from_str("DXGI texture smoke requires Windows")),
    }
}

/// Runs the selected-readback smoke. This build has no desktop duplication, so nothing
/// is attempted and nothing is read back.
pub fn run_dxgi_selected_readback_smoke(bounds: MonitorCaptureBounds) -> (r:
    DxgiSelectedReadbackSmokeReport)
    ensures
        !r.attempted,
        r.spec_has_nothing(),
        r.elapsed_ms == 0,
        r.error matches Some(text) && text@ == "DXGI selected readback smoke requires Windows"@,
{
    DxgiSelectedReadbackSmokeReport {
        attempted: false,
        ok: false,
        stage: DxgiSelectedReadbackSmokeStage::Failed,
        elapsed_ms: 0,
        frame_id: None,
        width: None,
        height: None,
        requested_bounds: MonitorCaptureBounds::new(0, 0, 0, 0),
        output_bounds: None,
        adapter_index: None,
        output_index: None,
        crop: None,
        selected_readback_plan: None,
        selected_output_ready_planning_only: false,
        format: None,
        selected_only: false,
        bounded_crop_valid: false,
        copy_subresource_region: false,
        bgra_to_rgba: false,
        png_signature_valid: false,
        released_frame: false,
        stopped: false,
        error: Some(String::from_str("DXGI selected readback smoke requires Windows")),
    }
}

/// The adapter and output indices of an output identity, each as an option.
pub open spec fn identity_indices(identity: Option<(u32, u32)>) -> (Option<u32>, Option<u32>) {
    match identity {
        Some((adapter, output)) => (Some(adapter), Some(output)),
        None => (None, None),
    }
}

fn split_identity(identity: Option<(u32, u32)>) -> (r: (Option<u32>, Option<u32>))
    ensures
        r == identity_indices(identity),
{
    match identity {
        Some((adapter, output)) => (Some(adapter), Some(output)),
        None => (None, None),
    }
}

/// The readback plan of a smoke whose duplication started: the selection mapped into the
/// acquired frame of the duplicated output, which needs that output's desktop bounds.
pub fn dxgi_readback_smoke_plan(
    bounds: MonitorCaptureBounds,
    output_bounds: Option<MonitorCaptureBounds>,
    frame: ImageBounds,
) -> (r: Result<SelectedReadbackPlan, String>)
    ensures
        match output_bounds {
            None => r matches Err(text) && text@ == "DXGI output DesktopCoordinates are unavailable"@,
            Some(target) => match spec_plan_selected_readback(
                SelectedReadbackPlanBackend::DxgiOutput,
                bounds,
                target,
                frame,
            ) {
                Ok(plan) => r == Ok::<SelectedReadbackPlan, String>(plan),
                Err(e) => r matches Err(text) && text@ == e.spec_message(),
            },
        },
{
    match output_bounds {
        None => Err(String::from_str("DXGI output DesktopCoordinates are unavailable")),
        Some(target) => match plan_selected_readback_from_desktop_bounds(
            SelectedReadbackPlanBackend::DxgiOutput,
            bounds,
            target,
            frame,
        ) {
            Ok(plan) => Ok(plan),
            Err(e) => Err(e.to_string()),
        },
    }
}

/// The report of a smoke whose duplication started but whose texture capture failed;
/// the duplication was then stopped, which may have failed too.
pub fn dxgi_readback_smoke_capture_failed(
    elapsed_ms: u128,
    error: &str,
    stop_error: Option<String>,
) -> (r: DxgiSelectedReadbackSmokeReport)
    ensures
        r.attempted && r.elapsed_ms == elapsed_ms,
        (DxgiSelectedReadbackSmokeReport { stopped: false, ..r }).spec_has_nothing(),
        r.stopped == stop_error is None,
        r.error matches Some(text) && text@ == match stop_error {
            None => spec_stage_error("started"@, error@),
            Some(e) => spec_stage_error("started"@, error@) + "; stop failed: "@ + e@,
        },
{
    let mut report = DxgiSelectedReadbackSmokeReport::failed(
        DxgiSelectedReadbackSmokeStage::Started,
        elapsed_ms,
        error,
    );
    match stop_error {
        None => {
            report.stopped = true;
        },
        Some(e) => {
            let mut text = stage_error("started", error);
            text.append("; stop failed: ");
            text.append(e.as_str());
            report.error = Some(text);
        },
    }
    report
}

/// The report of a smoke whose texture was acquired but whose selection could not be
/// planned; what is known of the output is kept.
pub fn dxgi_readback_smoke_plan_failed(
    bounds: MonitorCaptureBounds,
    elapsed_ms: u128,
    output_bounds: Option<MonitorCaptureBounds>,
    output_identity: Option<(u32, u32)>,
    error: &str,
) -> (r: DxgiSelectedReadbackSmokeReport)
    ensures
        r.attempted && r.elapsed_ms == elapsed_ms,
        (DxgiSelectedReadbackSmokeReport {
            requested_bounds: MonitorCaptureBounds::spec_new(0, 0, 0, 0),
            output_bounds: None,
            adapter_index: None,
            output_index: None,
            ..r
        }).spec_has_nothing(),
        r.requested_bounds == bounds && r.output_bounds == output_bounds,
        (r.adapter_index, r.output_index) == identity_indices(output_identity),
        r.error matches Some(text) && text@ == spec_stage_error("texture-acquired"@, error@),
{
    let mut report = DxgiSelectedReadbackSmokeReport::failed(
        DxgiSelectedReadbackSmokeStage::TextureAcquired,
        elapsed_ms,
        error,
    );
    let (adapter_index, output_index) = split_identity(output_identity);
    report.requested_bounds = bounds;
    report.output_bounds = output_bounds;
    report.adapter_index = adapter_index;
    report.output_index = output_index;
    report
}

/// The furthest stage a smoke past its plan reached: the readback, then the frame's
/// release, then the stop, each counting only when it succeeded.
pub open spec fn spec_readback_smoke_stage(read: bool, released: bool, stopped: bool) -> DxgiSelectedReadbackSmokeStage {
    if stopped {
        DxgiSelectedReadbackSmokeStage::Stopped
    } else if released {
        DxgiSelectedReadbackSmokeStage::FrameReleased
    } else if read {
        DxgiSelectedReadbackSmokeStage::SelectedReadback
    } else {
        DxgiSelectedReadbackSmokeStage::TextureAcquired
    }
}

/// The first failure of a smoke past its plan: the readback's, then the release's, then
/// the stop's.
pub open spec fn spec_readback_smoke_error(
    read_error: Option<Seq<char>>,
    release_error: Option<Seq<char>>,
    stop_error: Option<Seq<char>>,
) -> Option<Seq<char>> {
    match read_error {
        Some(e) => Some(e),
        None => match release_error {
            Some(e) => Some("release failed: "@ + e),
            None => match stop_error {
                Some(e) => Some("stop failed: "@ + e),
                None => None,
            },
        },
    }
}

fn prefixed(prefix: &str, text: String) -> (r: String)
    ensures
        r@ == prefix@ + text@,
{
    let mut out = String::from_str(prefix);
    out.append(text.as_str());
    out
}

/// The report of a smoke that acquired a texture and planned its selection, from what
/// the readback, the frame's release and the stop reported.
pub fn finish_dxgi_selected_readback_smoke(
    bounds: MonitorCaptureBounds,
    elapsed_ms: u128,
    frame_id: u64,
    format: D3d11TextureFrameFormat,
    output_bounds: Option<MonitorCaptureBounds>,
    output_identity: Option<(u32, u32)>,
    plan: SelectedReadbackPlan,
    selected: Result<SelectedImageContract, String>,
    release_error: Option<String>,
    stop_error: Option<String>,
) -> (r: DxgiSelectedReadbackSmokeReport)
    ensures
        r.attempted && r.elapsed_ms == elapsed_ms,
        r.frame_id == Some(frame_id) && r.format == Some(format),
        r.width == Some(bounds.width) && r.height == Some(bounds.height),
        r.requested_bounds == bounds && r.output_bounds == output_bounds,
        (r.adapter_index, r.output_index) == identity_indices(output_identity),
        r.crop == Some(plan.mapping.crop) && r.selected_readback_plan == Some(plan),
        r.selected_output_ready_planning_only == plan.spec_selected_output_ready(),
        r.selected_only == (selected matches Ok(image) && image.spec_is_selected_only_png()),
        r.png_signature_valid == (selected matches Ok(image) && starts_with_png_signature(
            image.png_bytes@,
        )),
        r.bounded_crop_valid && r.bgra_to_rgba,
        r.copy_subresource_region == selected is Ok,
        r.released_frame == release_error is None && r.stopped == stop_error is None,
        r.stage == spec_readback_smoke_stage(selected is Ok, release_error is None, stop_error is None),
        opt_text(r.error) == spec_readback_smoke_error(
            match selected {
                Ok(_) => None,
                Err(e) => Some(e@),
            },
            opt_text(release_error),
            opt_text(stop_error),
        ),
        r.ok == (r.error is None && r.selected_only && r.png_signature_valid),
{
    let read = selected.is_ok();
    let released_frame = release_error.is_none();
    let stopped = stop_error.is_none();
    let stage = if stopped {
        DxgiSelectedReadbackSmokeStage::Stopped
    } else if released_frame {
        DxgiSelectedReadbackSmokeStage::FrameReleased
    } else if read {
        DxgiSelectedReadbackSmokeStage::SelectedReadback
    } else {
        DxgiSelectedReadbackSmokeStage::TextureAcquired
    };
    let (selected_only, png_signature_valid, read_error) = match selected {
        Ok(image) => (image.is_selected_only_png(), has_png_signature(&image.png_bytes), None),
        Err(e) => (false, false, Some(e)),
    };
    let error = match read_error {
        Some(e) => Some(e),
        None => match release_error {
            Some(e) => Some(prefixed("release failed: ", e)),
            None => match stop_error {
                Some(e) => Some(prefixed("stop failed: ", e)),
                None => None,
            },
        },
    };
    let (adapter_index, output_index) = split_identity(output_identity);
    let ready = plan.selected_output_ready();
    let crop = plan.mapping.crop;
    let ok = error.is_none() && selected_only && png_signature_valid;
    DxgiSelectedReadbackSmokeReport {
        attempted: true,
        ok,
        stage,
        elapsed_ms,
        frame_id: Some(frame_id),
        width: Some(bounds.width),
        height: Some(bounds.height),
        requested_bounds: bounds,
        output_bounds,
        adapter_index,
        output_index,
        crop: Some(crop),
        selected_readback_plan: Some(plan),
        selected_output_ready_planning_only: ready,
        format: Some(format),
        selected_only,
        bounded_crop_valid: true,
        copy_subresource_region: read,
        bgra_to_rgba: true,
        png_signature_valid,
        released_frame,
        stopped,
        error,
    }
}

/// The report of a texture smoke whose duplication started but whose texture capture
/// failed; the duplication was then stopped, which may have failed too.
pub fn dxgi_texture_smoke_capture_failed(
    elapsed_ms: u128,
    session_state: DxgiDuplicationSessionState,
    error: &str,
    stop_error: Option<String>,
) -> (r: DxgiTextureSmokeReport)
    ensures
        r.attempted && !r.ok && r.elapsed_ms == elapsed_ms,
        r.stage == DxgiTextureSmokeStage::Failed,
        r.frame_id is None && r.width is None && r.height is None && r.format is None,
        r.session_state == session_state,
        !r.released_frame && r.stopped == stop_error is None,
        r.error matches Some(text) && text@ == match stop_error {
            None => spec_stage_error("started"@, error@),
            Some(e) => spec_stage_error("started"@, error@) + "; stop failed: "@ + e@,
        },
{
    let mut report = DxgiTextureSmokeReport::failed(
        DxgiTextureSmokeStage::Started,
        elapsed_ms,
        session_state,
        error,
    );
    match stop_error {
        None => {
            report.stopped = true;
        },
        Some(e) => {
            let mut text = stage_error("started", error);
            text.append("; stop failed: ");
            text.append(e.as_str());
            report.error = Some(text);
        },
    }
    report
}

/// The furthest stage of a texture smoke that acquired its texture: the frame's
/// release, then the stop, each counting only when it succeeded.
pub open spec fn spec_texture_smoke_stage(released: bool, stopped: bool) -> DxgiTextureSmokeStage {
    if stopped {
        DxgiTextureSmokeStage::Stopped
    } else if released {
        DxgiTextureSmokeStage::FrameReleased
    } else {
        DxgiTextureSmokeStage::TextureAcquired
    }
}

/// The report of a texture smoke that acquired a texture, from what the frame's release
/// and the stop reported.
pub fn finish_dxgi_texture_acquisition_smoke(
    elapsed_ms: u128,
    frame_id: u64,
    width: u32,
    height: u32,
    format: D3d11TextureFrameFormat,
    session_state: DxgiDuplicationSessionState,
    release_error: Option<String>,
    stop_error: Option<String>,
) -> (r: DxgiTextureSmokeReport)
    ensures
        r.attempted && r.elapsed_ms == elapsed_ms,
        r.frame_id == Some(frame_id) && r.width == Some(width) && r.height == Some(height),
        r.format == Some(format) && r.session_state == session_state,
        r.released_frame == release_error is None && r.stopped == stop_error is None,
        r.stage == spec_texture_smoke_stage(release_error is None, stop_error is None),
        opt_text(r.error) == spec_readback_smoke_error(None, opt_text(release_error), opt_text(stop_error)),
        r.ok == r.error is None,
{
    let released_frame = release_error.is_none();
    let stopped = stop_error.is_none();
    let stage = if stopped {
        DxgiTextureSmokeStage::Stopped
    } else if released_frame {
        DxgiTextureSmokeStage::FrameReleased
    } else {
        DxgiTextureSmokeStage::TextureAcquired
    };
    let error = match release_error {
        Some(e) => Some(prefixed("release failed: ", e)),
        None => match stop_error {
            Some(e) => Some(prefixed("stop failed: ", e)),
            None => None,
        },
    };
    let ok = error.is_none();
    DxgiTextureSmokeReport {
        attempted: true,
        ok,
        stage,
        elapsed_ms,
        frame_id: Some(frame_id),
        width: Some(width),
        height: Some(height),
        format: Some(format),
        session_state,
        released_frame,
        stopped,
        error,
    }
}

} // verus!
