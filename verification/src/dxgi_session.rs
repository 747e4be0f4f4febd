//! The bookkeeping of one DXGI output duplication: which frame is held and when it
//! must be released.
use vstd::prelude::*;

use crate::capture::MonitorCaptureBounds;
use crate::dxgi_capture::DxgiCaptureError;
use crate::dxgi_output::{
    is_ranking_evidence, rank_dxgi_outputs_for_selection, DxgiOutputCandidate,
    DxgiOutputRankingEvidence,
};
use crate::dxgi_probe::DxgiNativeApiProbe;

verus! {

/// Where a duplication session stands.
#[derive(Debug, Clone, Copy, PartialEq, Eq, Structural)]
pub enum DxgiDuplicationSessionState {
    Uninitialized,
    NativeApiAvailable,
    DuplicateOutputReady,
    FrameAcquired,
    Stopped,
    Failed,
}

/// The session's state, the id of the last acquired frame and the release obligation.
#[derive(Debug, Clone, PartialEq, Eq)]
pub struct DxgiDuplicationSessionContract {
    pub state: DxgiDuplicationSessionState,
    pub frame_id: u64,
    pub owns_acquired_frame: bool,
    pub requires_release_before_next_acquire: bool,
    pub reason: Option<String>,
}

impl DxgiDuplicationSessionContract {
    /// A session in `state` that holds no frame.
    pub open spec fn spec_is_idle(&self, state: DxgiDuplicationSessionState) -> bool {
        &&& self.state == state
        &&& self.frame_id == 0
        &&& !self.owns_acquired_frame
        &&& !self.requires_release_before_next_acquire
    }

    pub fn idle(state: DxgiDuplicationSessionState, reason: Option<String>) -> (r: Self)
        ensures
            r.spec_is_idle(state),
            r.reason == reason,
    {
        Self {
            state,
            frame_id: 0,
            owns_acquired_frame: false,
            requires_release_before_next_acquire: false,
            reason,
        }
    }

    /// The session of a probe: idle and available, without a reason, when the probe found
    /// factory, adapter and output; otherwise idle and failed, with the probe's reason or a
    /// stock one.
    pub open spec fn spec_is_from_probe(&self, api_probe: DxgiNativeApiProbe) -> bool {
        if api_probe.spec_supports_duplication_probe() {
            self.spec_is_idle(DxgiDuplicationSessionState::NativeApiAvailable) && self.reason is None
        } else {
            self.spec_is_idle(DxgiDuplicationSessionState::Failed) && (self.reason matches Some(
                reason,
            ) && reason@ == match api_probe.reason {
                Some(given) => given@,
                None => "DXGI factory, adapter, or output probe failed"@,
            })
        }
    }

    /// Available when the probe found factory, adapter and output; otherwise failed, with
    /// the probe's reason or a stock one.
    pub fn from_probe(api_probe: &DxgiNativeApiProbe) -> (r: Self)
        ensures
            r.spec_is_from_probe(*api_probe),
    {
        if api_probe.supports_duplication_probe() {
            Self::native_api_available()
        } else {
            let reason = match &api_probe.reason {
                Some(given) => given.clone(),
                None => String::from_str("DXGI factory, adapter, or output probe failed"),
            };
            Self::idle(DxgiDuplicationSessionState::Failed, Some(reason))
        }
    }

    pub fn native_api_available() -> (r: Self)
        ensures
            r.spec_is_idle(DxgiDuplicationSessionState::NativeApiAvailable),
            r.reason is None,
    {
        Self::idle(DxgiDuplicationSessionState::NativeApiAvailable, None)
    }

    pub fn mark_duplicate_output_ready(&mut self)
        ensures
            final(self).state == DxgiDuplicationSessionState::DuplicateOutputReady,
            final(self).reason is None,
            final(self).frame_id == old(self).frame_id,
            final(self).owns_acquired_frame == old(self).owns_acquired_frame,
            final(self).requires_release_before_next_acquire == old(
                self,
            ).requires_release_before_next_acquire,
    {
        self.state = DxgiDuplicationSessionState::DuplicateOutputReady;
        self.reason = None;
    }

    /// A frame is now held: the id advances (saturating) and it must be released before
    /// the next acquire.
    pub fn mark_frame_acquired(&mut self)
        ensures
            final(self).frame_id == (if old(self).frame_id == u64::MAX {
                u64::MAX
            } else {
                (old(self).frame_id + 1) as u64
            }),
            final(self).state == DxgiDuplicationSessionState::FrameAcquired,
            final(self).owns_acquired_frame,
            final(self).requires_release_before_next_acquire,
            final(self).reason == old(self).reason,
    {
        self.frame_id = self.frame_id.saturating_add(1);
        self.state = DxgiDuplicationSessionState::FrameAcquired;
        self.owns_acquired_frame = true;
        self.requires_release_before_next_acquire = true;
    }

    pub fn mark_frame_released(&mut self)
        ensures
            final(self).state == DxgiDuplicationSessionState::DuplicateOutputReady,
            !final(self).owns_acquired_frame,
            !final(self).requires_release_before_next_acquire,
            final(self).frame_id == old(self).frame_id,
            final(self).reason == old(self).reason,
    {
        self.state = DxgiDuplicationSessionState::DuplicateOutputReady;
        self.owns_acquired_frame = false;
        self.requires_release_before_next_acquire = false;
    }
}

/// Where the pointer was in an acquired frame.
#[derive(Debug, Clone, Copy, PartialEq, Eq, Structural)]
pub struct DxgiOutduplPointerPositionDiagnostics {
    pub visible: bool,
    pub position_x: i32,
    pub position_y: i32,
}

/// The frame information DXGI returns with an acquired frame.
#[derive(Debug, Clone, Copy, PartialEq, Eq, Structural)]
pub struct DxgiOutduplFrameInfoDiagnostics {
    pub last_present_time_qpc: i64,
    pub last_mouse_update_time_qpc: i64,
    pub accumulated_frames: u32,
    pub rects_coalesced: bool,
    pub protected_content_masked_out: bool,
    pub pointer_position: DxgiOutduplPointerPositionDiagnostics,
    pub total_metadata_buffer_size: u32,
    pub pointer_shape_buffer_size: u32,
}

/// The `HRESULT` of `DXGI_ERROR_WAIT_TIMEOUT` (`0x887A0027`).
pub const DXGI_ERROR_WAIT_TIMEOUT_CODE: i32 = -2005270489i32;

/// The `HRESULT` of `DXGI_ERROR_ACCESS_LOST` (`0x887A0026`).
pub const DXGI_ERROR_ACCESS_LOST_CODE: i32 = -2005270490i32;

/// The capture error of a failed `AcquireNextFrame`, from its `HRESULT` and its text: a
/// wait timeout, a lost duplication that must be recreated, or any other failure.
pub fn map_acquire_frame_error(code: i32, error: &str) -> (r: DxgiCaptureError)
    ensures
        code == DXGI_ERROR_WAIT_TIMEOUT_CODE ==> (r matches DxgiCaptureError::FrameTimeout { reason }
            && reason@ == "DXGI AcquireNextFrame was not ready: "@ + error@),
        code == DXGI_ERROR_ACCESS_LOST_CODE ==> (r matches DxgiCaptureError::AccessLost { reason }
            && reason@ == "DXGI AcquireNextFrame access was lost and duplication must be recreated: "@
            + error@),
        code != DXGI_ERROR_WAIT_TIMEOUT_CODE && code != DXGI_ERROR_ACCESS_LOST_CODE ==> (r matches DxgiCaptureError::FrameUnavailable {
            reason,
        } && reason@ == "IDXGIOutputDuplication::AcquireNextFrame failed: "@ + error@),
{
    let (prefix, kind) = if code == DXGI_ERROR_WAIT_TIMEOUT_CODE {
        ("DXGI AcquireNextFrame was not ready: ", 0u8)
    } else if code == DXGI_ERROR_ACCESS_LOST_CODE {
        ("DXGI AcquireNextFrame access was lost and duplication must be recreated: ", 1u8)
    } else {
        ("IDXGIOutputDuplication::AcquireNextFrame failed: ", 2u8)
    };
    let mut reason = String::from_str(prefix);
    reason.append(error);
    if kind == 0 {
        DxgiCaptureError::FrameTimeout { reason }
    } else if kind == 1 {
        DxgiCaptureError::AccessLost { reason }
    } else {
        DxgiCaptureError::FrameUnavailable { reason }
    }
}

/// The output a duplication opens, among the outputs with valid desktop coordinates
/// that the enumeration found, in enumeration order. With a selection it is the output
/// the ranking selects, and the ranking is kept as evidence; without one it is the
/// first output.
pub fn choose_dxgi_output(
    selection: Option<MonitorCaptureBounds>,
    candidates: &[DxgiOutputCandidate],
) -> (r: Result<(DxgiOutputCandidate, Option<DxgiOutputRankingEvidence>), DxgiCaptureError>)
    ensures
        candidates@.len() == 0 ==> (r matches Err(DxgiCaptureError::AdapterUnavailable { reason })
            && reason@ == "DXGI output enumeration returned no outputs with valid DesktopCoordinates"@),
        candidates@.len() > 0 ==> match selection {
            None => r == Ok::<(DxgiOutputCandidate, Option<DxgiOutputRankingEvidence>), DxgiCaptureError>(
                (candidates@[0], None),
            ),
            Some(requested) => exists|ranking: DxgiOutputRankingEvidence|
                #[trigger] is_ranking_evidence(requested, candidates@, ranking) && match ranking.selected_output {
                    Some(chosen) => r == Ok::<
                        (DxgiOutputCandidate, Option<DxgiOutputRankingEvidence>),
                        DxgiCaptureError,
                    >((chosen, Some(ranking))),
                    None => r matches Err(DxgiCaptureError::AdapterUnavailable { reason }) && reason@
                        == "requested selection does not intersect any DXGI output DesktopCoordinates"@,
                },
        },
{
    if candidates.len() == 0 {
        return Err(
            DxgiCaptureError::AdapterUnavailable {
                reason: String::from_str(
                    "DXGI output enumeration returned no outputs with valid DesktopCoordinates",
                ),
            },
        );
    }
    match selection {
        None => Ok((candidates[0], None)),
        Some(requested) => {
            let ranking = rank_dxgi_outputs_for_selection(requested, candidates);
            let ghost evidence = ranking;
            match ranking.selected_output {
                Some(chosen) => Ok((chosen, Some(ranking))),
                None => {
                    proof {
                        assert(is_ranking_evidence(requested, candidates@, evidence));
                    }
                    Err(
                        DxgiCaptureError::AdapterUnavailable {
                            reason: String::from_str(
                                "requested selection does not intersect any DXGI output DesktopCoordinates",
                            ),
                        },
                    )
                },
            }
        },
    }
}

} // verus!
