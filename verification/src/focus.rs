//! Giving focus back to the previously active window when the overlay closes.
use vstd::prelude::*;

verus! {

/// What to do with the foreground window when the overlay closes.
#[derive(Debug, Clone, Copy, PartialEq, Eq, Structural)]
pub enum FocusRestorePolicy {
    RestorePreviousForeground,
    SuppressRestore,
    LeaveUnchanged,
}

/// Whether a window the user switched to (for example with Alt+Tab) keeps the focus.
#[derive(Debug, Clone, Copy, PartialEq, Eq, Structural)]
pub enum AltTabRestoreSemantics {
    PreserveUserForeground,
    ForceSnapshotForeground,
}

/// What restoring the focus did.
#[derive(Debug, Clone, Copy, PartialEq, Eq, Structural)]
pub enum FocusRestoreOutcome {
    RestoredPreviousForeground,
    PreservedAltTabForeground,
    Suppressed,
    LeftUnchanged,
    NoSnapshotTarget,
    UnsupportedPlatform,
}

/// The foreground window seen before the overlay opened, and the restore policy.
#[derive(Debug, Clone, Copy, PartialEq, Eq, Structural)]
pub struct FocusSnapshot {
    pub hwnd: isize,
    pub policy: FocusRestorePolicy,
}

/// What the platform reports when the overlay closes: whether the snapshot window still
/// exists, and which window is in the foreground now (zero for none).
#[derive(Debug, Clone, Copy, PartialEq, Eq, Structural)]
pub struct ForegroundObservation {
    pub snapshot_window_exists: bool,
    pub current_foreground: isize,
}

/// What to do with the foreground after observing it.
#[derive(Debug, Clone, Copy, PartialEq, Eq, Structural)]
pub enum ForegroundRestoreDecision {
    NoTarget,
    KeepUserForeground,
    SetSnapshotForeground,
}

/// The decision: no target when the snapshot is gone; keep a window the user switched
/// to (neither the overlay nor the snapshot) when the semantics preserve it; otherwise
/// bring the snapshot window back.
pub open spec fn spec_foreground_restore_decision(
    snapshot_hwnd: isize,
    overlay_hwnd: isize,
    semantics: AltTabRestoreSemantics,
    observed: ForegroundObservation,
) -> ForegroundRestoreDecision {
    if snapshot_hwnd == 0 || !observed.snapshot_window_exists {
        ForegroundRestoreDecision::NoTarget
    } else if semantics is PreserveUserForeground && observed.current_foreground != 0
        && observed.current_foreground != overlay_hwnd && observed.current_foreground
        != snapshot_hwnd {
        ForegroundRestoreDecision::KeepUserForeground
    } else {
        ForegroundRestoreDecision::SetSnapshotForeground
    }
}

/// Decides how to restore the foreground from what the platform observed.
pub fn foreground_restore_decision(
    snapshot_hwnd: isize,
    overlay_hwnd: isize,
    semantics: AltTabRestoreSemantics,
    observed: ForegroundObservation,
) -> (r: ForegroundRestoreDecision)
    ensures
        r == spec_foreground_restore_decision(snapshot_hwnd, overlay_hwnd, semantics, observed),
{
    if snapshot_hwnd == 0 || !observed.snapshot_window_exists {
        return ForegroundRestoreDecision::NoTarget;
    }
    let current = observed.current_foreground;
    let user_moved_focus = current != 0 && current != overlay_hwnd && current != snapshot_hwnd;
    let preserve = match semantics {
        AltTabRestoreSemantics::PreserveUserForeground => true,
        AltTabRestoreSemantics::ForceSnapshotForeground => false,
    };
    if preserve && user_moved_focus {
        return ForegroundRestoreDecision::KeepUserForeground;
    }
    ForegroundRestoreDecision::SetSnapshotForeground
}

/// The outcome of a decision once the platform has acted on it (`set_succeeded` is the
/// answer to bringing the snapshot window forward).
pub fn restore_outcome_for(decision: ForegroundRestoreDecision, set_succeeded: bool) -> (r:
    FocusRestoreOutcome)
    ensures
        r == match decision {
            ForegroundRestoreDecision::NoTarget => FocusRestoreOutcome::NoSnapshotTarget,
            ForegroundRestoreDecision::KeepUserForeground =>
                FocusRestoreOutcome::PreservedAltTabForeground,
            ForegroundRestoreDecision::SetSnapshotForeground => if set_succeeded {
                FocusRestoreOutcome::RestoredPreviousForeground
            } else {
                FocusRestoreOutcome::NoSnapshotTarget
            },
        },
{
    match decision {
        ForegroundRestoreDecision::NoTarget => FocusRestoreOutcome::NoSnapshotTarget,
        ForegroundRestoreDecision::KeepUserForeground => FocusRestoreOutcome::PreservedAltTabForeground,
        ForegroundRestoreDecision::SetSnapshotForeground => {
            if set_succeeded {
                FocusRestoreOutcome::RestoredPreviousForeground
            } else {
                FocusRestoreOutcome::NoSnapshotTarget
            }
        },
    }
}

/// Off Windows there is no foreground window to read.
fn current_foreground_hwnd() -> (r: isize)
    ensures
        r == 0,
{
    0
}

/// Off Windows the foreground cannot be restored.
fn restore_snapshot_foreground(
    snapshot_hwnd: isize,
    overlay_hwnd: isize,
    semantics: AltTabRestoreSemantics,
) -> (r: FocusRestoreOutcome)
    ensures
        r == FocusRestoreOutcome::UnsupportedPlatform,
{
    FocusRestoreOutcome::UnsupportedPlatform
}

impl FocusSnapshot {
    pub open spec fn spec_restore_after_overlay_close(self) -> FocusRestoreOutcome {
        match self.policy {
            FocusRestorePolicy::SuppressRestore => FocusRestoreOutcome::Suppressed,
            FocusRestorePolicy::LeaveUnchanged => FocusRestoreOutcome::LeftUnchanged,
            FocusRestorePolicy::RestorePreviousForeground => FocusRestoreOutcome::UnsupportedPlatform,
        }
    }

    pub fn empty(policy: FocusRestorePolicy) -> (r: Self)
        ensures
            r == (FocusSnapshot { hwnd: 0, policy }),
    {
        Self { hwnd: 0, policy }
    }

    /// Records the current foreground window (none off Windows).
    pub fn capture(policy: FocusRestorePolicy) -> (r: Self)
        ensures
            r == (FocusSnapshot { hwnd: 0, policy }),
    {
        Self { hwnd: current_foreground_hwnd(), policy }
    }

    pub fn with_hwnd(hwnd: isize, policy: FocusRestorePolicy) -> (r: Self)
        ensures
            r == (FocusSnapshot { hwnd, policy }),
    {
        Self { hwnd, policy }
    }

    pub fn has_target(self) -> (r: bool)
        ensures
            r == (self.hwnd != 0),
    {
        self.hwnd != 0
    }

    /// Applies the policy; restoring is a platform call, unsupported off Windows.
    pub fn restore_after_overlay_close(self, overlay_hwnd: isize, semantics: AltTabRestoreSemantics) -> (r:
        FocusRestoreOutcome)
        ensures
            r == self.spec_restore_after_overlay_close(),
    {
        match self.policy {
            FocusRestorePolicy::SuppressRestore => FocusRestoreOutcome::Suppressed,
            FocusRestorePolicy::LeaveUnchanged => FocusRestoreOutcome::LeftUnchanged,
            FocusRestorePolicy::RestorePreviousForeground => {
                restore_snapshot_foreground(self.hwnd, overlay_hwnd, semantics)
            },
        }
    }
}

/// A snapshot, the overlay window and the Alt+Tab semantics to restore with.
#[derive(Debug, Clone, Copy, PartialEq, Eq, Structural)]
pub struct FocusRestorePlan {
    pub snapshot: FocusSnapshot,
    pub overlay_hwnd: isize,
    pub alt_tab_semantics: AltTabRestoreSemantics,
}

impl FocusRestorePlan {
    pub fn preserve_alt_tab(snapshot: FocusSnapshot, overlay_hwnd: isize) -> (r: Self)
        ensures
            r == (FocusRestorePlan {
                snapshot,
                overlay_hwnd,
                alt_tab_semantics: AltTabRestoreSemantics::PreserveUserForeground,
            }),
    {
        Self {
            snapshot,
            overlay_hwnd,
            alt_tab_semantics: AltTabRestoreSemantics::PreserveUserForeground,
        }
    }

    pub fn force_snapshot(snapshot: FocusSnapshot, overlay_hwnd: isize) -> (r: Self)
        ensures
            r == (FocusRestorePlan {
                snapshot,
                overlay_hwnd,
                alt_tab_semantics: AltTabRestoreSemantics::ForceSnapshotForeground,
            }),
    {
        Self {
            snapshot,
            overlay_hwnd,
            alt_tab_semantics: AltTabRestoreSemantics::ForceSnapshotForeground,
        }
    }

    pub fn restore(self) -> (r: FocusRestoreOutcome)
        ensures
            r == self.snapshot.spec_restore_after_overlay_close(),
    {
        self.snapshot.restore_after_overlay_close(self.overlay_hwnd, self.alt_tab_semantics)
    }
}

/// A window the user switched to is never taken away under Alt+Tab-preserving
/// semantics, and the overlay itself is never treated as the user's choice.
pub proof fn user_foreground_is_preserved(
    snapshot_hwnd: isize,
    overlay_hwnd: isize,
    observed: ForegroundObservation,
)
    requires
        snapshot_hwnd != 0,
        observed.snapshot_window_exists,
    ensures
        (observed.current_foreground != 0 && observed.current_foreground != overlay_hwnd
            && observed.current_foreground != snapshot_hwnd) ==> spec_foreground_restore_decision(
            snapshot_hwnd,
            overlay_hwnd,
            AltTabRestoreSemantics::PreserveUserForeground,
            observed,
        ) == ForegroundRestoreDecision::KeepUserForeground,
        observed.current_foreground == overlay_hwnd ==> spec_foreground_restore_decision(
            snapshot_hwnd,
            overlay_hwnd,
            AltTabRestoreSemantics::PreserveUserForeground,
            observed,
        ) == ForegroundRestoreDecision::SetSnapshotForeground,
        spec_foreground_restore_decision(
            snapshot_hwnd,
            overlay_hwnd,
            AltTabRestoreSemantics::ForceSnapshotForeground,
            observed,
        ) == ForegroundRestoreDecision::SetSnapshotForeground,
{
}

} // verus!
