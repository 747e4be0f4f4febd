//! Nudging the cursor by a pixel or two and putting it back, to wake desktop duplication.
use vstd::prelude::*;

use crate::numeric::{clamp_i32, saturating_add_i32};
use crate::text::push_i64;

verus! {

/// A cursor position in virtual-desktop pixels.
#[derive(Debug, Clone, Copy, PartialEq, Eq, Structural)]
pub struct CursorPoint {
    pub x: i32,
    pub y: i32,
}

/// What a nudge did, and whether the cursor ended where it started.
#[derive(Debug, Clone, PartialEq, Eq)]
pub struct CursorNudgeReport {
    pub attempted: bool,
    pub ok: bool,
    pub original: Option<CursorPoint>,
    pub nudged: Option<CursorPoint>,
    pub after_nudge: Option<CursorPoint>,
    pub restored: Option<CursorPoint>,
    pub restore_attempted: bool,
    pub restore_confirmed: bool,
    pub dx: i32,
    pub dy: i32,
    pub error: Option<String>,
}

impl CursorNudgeReport {
    /// The nudge was refused before the cursor was touched, for `error`.
    pub open spec fn spec_is_blocked(self, dx: i32, dy: i32, error: Seq<char>) -> bool {
        &&& !self.attempted && !self.ok
        &&& self.original is None && self.nudged is None && self.after_nudge is None
        &&& self.restored is None
        &&& !self.restore_attempted && !self.restore_confirmed
        &&& self.dx == dx && self.dy == dy
        &&& self.error matches Some(text) && text@ == error
    }

    pub fn blocked(dx: i32, dy: i32, error: &str) -> (r: Self)
        ensures
            r.spec_is_blocked(dx, dy, error@),
    {
        Self {
            attempted: false,
            ok: false,
            original: None,
            nudged: None,
            after_nudge: None,
            restored: None,
            restore_attempted: false,
            restore_confirmed: false,
            dx,
            dy,
            error: Some(error.to_owned()),
        }
    }
}

/// The first check a nudge fails, if any: it must move, and by at most two pixels per
/// axis.
pub open spec fn spec_nudge_error(dx: i32, dy: i32) -> Option<Seq<char>> {
    if dx == 0 && dy == 0 {
        Some("cursor nudge requires non-zero movement"@)
    } else if dx > 2 || dx < -2 || dy > 2 || dy < -2 {
        Some("cursor nudge is limited to two pixels per axis"@)
    } else {
        None
    }
}

/// Nudges the cursor and puts it back. A refused nudge is blocked with its reason; this
/// build has no cursor to move, so an accepted one is blocked as requiring Windows.
pub fn nudge_cursor_temporarily(dx: i32, dy: i32) -> (r: CursorNudgeReport)
    requires
        dx != i32::MIN,
        dy != i32::MIN,
    ensures
        r.spec_is_blocked(
            dx,
            dy,
            match spec_nudge_error(dx, dy) {
                Some(error) => error,
                None => "cursor nudge requires Windows"@,
            },
        ),
{
    if dx == 0 && dy == 0 {
        return CursorNudgeReport::blocked(dx, dy, "cursor nudge requires non-zero movement");
    }
    if dx > 2 || dx < -2 || dy > 2 || dy < -2 {
        return CursorNudgeReport::blocked(dx, dy, "cursor nudge is limited to two pixels per axis");
    }
    CursorNudgeReport::blocked(dx, dy, "cursor nudge requires Windows")
}

/// Where a nudge moves the cursor: by `(dx, dy)`, saturating at the `i32` range.
pub fn nudged_point(original: CursorPoint, dx: i32, dy: i32) -> (r: CursorPoint)
    ensures
        r.x == clamp_i32(original.x + dx),
        r.y == clamp_i32(original.y + dy),
{
    CursorPoint { x: saturating_add_i32(original.x, dx), y: saturating_add_i32(original.y, dy) }
}

/// The text of a failed `SetCursorPos`.
pub fn set_cursor_failure_text(point: CursorPoint) -> (r: String)
    ensures
        r@ == "SetCursorPos failed for "@ + crate::text::signed_decimal(point.x as int) + ","@
            + crate::text::signed_decimal(point.y as int),
{
    let mut text = String::from_str("SetCursorPos failed for ");
    push_i64(&mut text, point.x as i64);
    text.append(",");
    push_i64(&mut text, point.y as i64);
    text
}

/// The error of a nudge on Windows: a failed nudge first, then a failed restore or an
/// unconfirmed one appended to it.
pub open spec fn spec_nudge_error_text(
    nudge_error: Option<Seq<char>>,
    restore_error: Option<Seq<char>>,
    restore_confirmed: bool,
) -> Option<Seq<char>> {
    match restore_error {
        Some(restore) => Some(
            match nudge_error {
                Some(first) => first + "; restore failed: "@ + restore,
                None => "restore failed: "@ + restore,
            },
        ),
        None => if !restore_confirmed {
            Some(
                match nudge_error {
                    Some(first) => first + "; cursor restore was not confirmed"@,
                    None => "cursor restore was not confirmed"@,
                },
            )
        } else {
            nudge_error
        },
    }
}

/// The text of an optional string.
pub open spec fn opt_text(value: Option<String>) -> Option<Seq<char>> {
    match value {
        Some(s) => Some(s@),
        None => None,
    }
}

/// The report of a nudge on Windows, from what the cursor calls answered: the position
/// before the nudge, the result of moving it, its position after the move, the result of
/// moving it back, and its position after that.
pub fn cursor_nudge_report(
    dx: i32,
    dy: i32,
    original: CursorPoint,
    nudge_result: Result<(), String>,
    after_nudge: Option<CursorPoint>,
    restore_result: Result<(), String>,
    restored: Option<CursorPoint>,
) -> (r: CursorNudgeReport)
    ensures
        r.attempted && r.restore_attempted,
        r.original == Some(original),
        r.nudged == Some(
            CursorPoint { x: clamp_i32(original.x + dx) as i32, y: clamp_i32(original.y + dy) as i32 },
        ),
        r.after_nudge == (if nudge_result is Ok {
            after_nudge
        } else {
            None
        }),
        r.restored == restored,
        r.restore_confirmed == (restored == Some(original)),
        r.dx == dx && r.dy == dy,
        opt_text(r.error) == spec_nudge_error_text(
            match nudge_result {
                Ok(_) => None,
                Err(e) => Some(e@),
            },
            match restore_result {
                Ok(_) => None,
                Err(e) => Some(e@),
            },
            restored == Some(original),
        ),
        r.ok == (r.error is None && restored == Some(original)),
{
    let nudged = nudged_point(original, dx, dy);
    let (nudge_error, after) = match nudge_result {
        Ok(_) => (None, after_nudge),
        Err(e) => (Some(e), None),
    };
    let restore_confirmed = match restored {
        Some(point) => point.x == original.x && point.y == original.y,
        None => false,
    };
    let error: Option<String> = match restore_result {
        Err(restore) => {
            let text = match nudge_error {
                Some(first) => {
                    let mut t = first;
                    t.append("; restore failed: ");
                    t.append(restore.as_str());
                    t
                },
                None => {
                    let mut t = String::from_str("restore failed: ");
                    t.append(restore.as_str());
                    t
                },
            };
            Some(text)
        },
        Ok(_) => {
            if !restore_confirmed {
                let text = match nudge_error {
                    Some(first) => {
                        let mut t = first;
                        t.append("; cursor restore was not confirmed");
                        t
                    },
                    None => String::from_str("cursor restore was not confirmed"),
                };
                Some(text)
            } else {
                nudge_error
            }
        },
    };
    let ok = error.is_none() && restore_confirmed;
    CursorNudgeReport {
        attempted: true,
        ok,
        original: Some(original),
        nudged: Some(nudged),
        after_nudge: after,
        restored,
        restore_attempted: true,
        restore_confirmed,
        dx,
        dy,
        error,
    }
}

} // verus!
