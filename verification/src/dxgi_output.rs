//! Choosing the DXGI output that a desktop selection lies on.
//!
//! Outputs are ranked by: intersects the selection, larger intersection area, holds the
//! selection's center, lower adapter index, lower output index; equal outputs keep their
//! input order. The first intersecting output in that order is selected.
use vstd::prelude::*;

use crate::capture::{checked_edge, MonitorCaptureBounds};

verus! {

/// An output rectangle as DXGI reports it: edges, right and bottom exclusive.
#[derive(Debug, Clone, Copy, PartialEq, Eq, Structural)]
pub struct DxgiDesktopCoordinates {
    pub left: i32,
    pub top: i32,
    pub right: i32,
    pub bottom: i32,
}

impl DxgiDesktopCoordinates {
    /// The bounds when both extents are positive and fit `i32` arithmetic.
    pub open spec fn spec_bounds(self) -> Option<MonitorCaptureBounds> {
        let width = self.right - self.left;
        let height = self.bottom - self.top;
        if width < i32::MIN || width > i32::MAX || height < i32::MIN || height > i32::MAX
            || width <= 0 || height <= 0 {
            None
        } else {
            Some(
                MonitorCaptureBounds {
                    origin_x: self.left,
                    origin_y: self.top,
                    width: width as u32,
                    height: height as u32,
                },
            )
        }
    }

    pub fn new(left: i32, top: i32, right: i32, bottom: i32) -> (r: Self)
        ensures
            r == (DxgiDesktopCoordinates { left, top, right, bottom }),
    {
        Self { left, top, right, bottom }
    }

    pub fn bounds(self) -> (r: Option<MonitorCaptureBounds>)
        ensures
            r == self.spec_bounds(),
    {
        let width = match self.right.checked_sub(self.left) {
            Some(w) => w,
            None => return None,
        };
        let height = match self.bottom.checked_sub(self.top) {
            Some(h) => h,
            None => return None,
        };
        if width <= 0 || height <= 0 {
            return None;
        }
        Some(MonitorCaptureBounds::new(self.left, self.top, width as u32, height as u32))
    }
}

/// One output of one adapter, with its desktop rectangle.
#[derive(Debug, Clone, Copy, PartialEq, Eq, Structural)]
pub struct DxgiOutputCandidate {
    pub adapter_index: u32,
    pub output_index: u32,
    pub desktop_bounds: MonitorCaptureBounds,
}

impl DxgiOutputCandidate {
    pub fn new(adapter_index: u32, output_index: u32, desktop_bounds: MonitorCaptureBounds) -> (r:
        Self)
        ensures
            r == (DxgiOutputCandidate { adapter_index, output_index, desktop_bounds }),
    {
        Self { adapter_index, output_index, desktop_bounds }
    }
}

/// The chosen output with how much of the selection it holds.
#[derive(Debug, Clone, Copy, PartialEq, Eq, Structural)]
pub struct DxgiOutputSelection {
    pub candidate: DxgiOutputCandidate,
    pub intersection_area: u64,
    pub contains_selection_center: bool,
}

pub const DXGI_OUTPUT_RANKING_POLICY_VERSION: u32 = 1;

pub const DXGI_OUTPUT_RANKING_POLICY: &'static str =
    "largest-intersection-area-then-selection-center-then-adapter-output-order";

/// The audit record of one ranking.
#[derive(Debug, Clone, PartialEq, Eq)]
pub struct DxgiOutputRankingEvidence {
    pub policy_version: u32,
    pub policy: &'static str,
    pub requested_bounds: MonitorCaptureBounds,
    pub selection_center: Option<(i64, i64)>,
    pub candidate_count: usize,
    pub selected_rank: Option<u32>,
    pub selected_output: Option<DxgiOutputCandidate>,
    pub ranked_outputs: Vec<DxgiRankedOutputEvidence>,
    pub persistent_handle_exposed: bool,
}

/// How one output fared. The share of the selection it holds is
/// `intersection_area / selection_area` (zero when the selection is invalid).
#[derive(Debug, Clone, Copy, PartialEq, Eq)]
pub struct DxgiRankedOutputEvidence {
    pub rank: u32,
    pub candidate: DxgiOutputCandidate,
    pub intersection_bounds: Option<MonitorCaptureBounds>,
    pub intersection_area: u64,
    pub selection_area: u64,
    pub contains_selection_center: bool,
    pub selectable: bool,
    pub selected: bool,
    pub rejection_reason: Option<&'static str>,
}

/// The selection is non-empty and its right and bottom edges fit in `i32`.
pub open spec fn selection_is_valid(selection: MonitorCaptureBounds) -> bool {
    !selection.spec_is_empty() && selection.spec_right() is Some && selection.spec_bottom() is Some
}

/// The center of the selection, rounding toward the origin.
pub open spec fn spec_selection_center(selection: MonitorCaptureBounds) -> (i64, i64) {
    (
        (selection.origin_x + selection.width / 2) as i64,
        (selection.origin_y + selection.height / 2) as i64,
    )
}

pub open spec fn max_int(a: int, b: int) -> int {
    if a >= b { a } else { b }
}

pub open spec fn min_int(a: int, b: int) -> int {
    if a <= b { a } else { b }
}

/// The overlap of two rectangles, when both have representable edges and it is non-empty.
pub open spec fn spec_intersection_bounds(
    selection: MonitorCaptureBounds,
    output: MonitorCaptureBounds,
) -> Option<MonitorCaptureBounds> {
    match (
        selection.spec_right(),
        selection.spec_bottom(),
        output.spec_right(),
        output.spec_bottom(),
    ) {
        (Some(sr), Some(sb), Some(or), Some(ob)) => {
            let left = max_int(selection.origin_x as int, output.origin_x as int);
            let top = max_int(selection.origin_y as int, output.origin_y as int);
            let right = min_int(sr as int, or as int);
            let bottom = min_int(sb as int, ob as int);
            if right <= left || bottom <= top {
                None
            } else {
                Some(
                    MonitorCaptureBounds {
                        origin_x: left as i32,
                        origin_y: top as i32,
                        width: (right - left) as u32,
                        height: (bottom - top) as u32,
                    },
                )
            }
        },
        _ => None,
    }
}

/// The output holds the selection's center and the selection reaches into the output.
pub open spec fn spec_contains_selection_center(
    selection: MonitorCaptureBounds,
    output: MonitorCaptureBounds,
) -> bool {
    match (
        selection.spec_right(),
        selection.spec_bottom(),
        output.spec_right(),
        output.spec_bottom(),
    ) {
        (Some(sr), Some(sb), Some(or), Some(ob)) => {
            let cx = selection.origin_x + selection.width / 2;
            let cy = selection.origin_y + selection.height / 2;
            cx >= output.origin_x && cx < or && cy >= output.origin_y && cy < ob && sr
                > output.origin_x && sb > output.origin_y
        },
        _ => false,
    }
}

/// The evidence of one candidate before it is ranked.
pub open spec fn spec_unranked_output(
    selection: MonitorCaptureBounds,
    candidate: DxgiOutputCandidate,
) -> DxgiRankedOutputEvidence {
    let valid = selection_is_valid(selection);
    let bounds = if valid {
        spec_intersection_bounds(selection, candidate.desktop_bounds)
    } else {
        None
    };
    let area: u64 = match bounds {
        Some(b) => (b.width * b.height) as u64,
        None => 0,
    };
    let selectable = area > 0;
    DxgiRankedOutputEvidence {
        rank: 0,
        candidate,
        intersection_bounds: bounds,
        intersection_area: area,
        selection_area: if valid {
            (selection.width * selection.height) as u64
        } else {
            0
        },
        contains_selection_center: selectable && spec_contains_selection_center(
            selection,
            candidate.desktop_bounds,
        ),
        selectable,
        selected: false,
        rejection_reason: if selectable {
            None
        } else if !valid {
            Some("invalid-selection")
        } else {
            Some("no-intersection")
        },
    }
}

/// `a` is ordered strictly before `b`: selectable first, then larger area, then holding
/// the center, then lower adapter index, then lower output index.
pub open spec fn output_less(a: DxgiRankedOutputEvidence, b: DxgiRankedOutputEvidence) -> bool {
    if a.selectable != b.selectable {
        a.selectable
    } else if a.intersection_area != b.intersection_area {
        a.intersection_area > b.intersection_area
    } else if a.contains_selection_center != b.contains_selection_center {
        a.contains_selection_center
    } else if a.candidate.adapter_index != b.candidate.adapter_index {
        a.candidate.adapter_index < b.candidate.adapter_index
    } else {
        a.candidate.output_index < b.candidate.output_index
    }
}

/// Neither is ordered before the other.
pub open spec fn output_tied(a: DxgiRankedOutputEvidence, b: DxgiRankedOutputEvidence) -> bool {
    !output_less(a, b) && !output_less(b, a)
}

/// Position `a` of `items` comes before position `b` in the stable order.
pub open spec fn output_ranks_before(items: Seq<DxgiRankedOutputEvidence>, a: int, b: int) -> bool {
    output_less(items[a], items[b]) || (output_tied(items[a], items[b]) && a < b)
}

/// `order` lists every position of `items` once, in stable comparator order.
pub open spec fn is_output_order(items: Seq<DxgiRankedOutputEvidence>, order: Seq<int>) -> bool {
    &&& order.len() == items.len()
    &&& forall|k: int| 0 <= k < order.len() ==> 0 <= #[trigger] order[k] < items.len()
    &&& forall|k1: int, k2: int|
        0 <= k1 < k2 < order.len() ==> output_ranks_before(
            items,
            #[trigger] order[k1],
            #[trigger] order[k2],
        )
}

/// The unranked evidence of every candidate, in input order.
pub open spec fn spec_unranked_outputs(
    selection: MonitorCaptureBounds,
    candidates: Seq<DxgiOutputCandidate>,
) -> Seq<DxgiRankedOutputEvidence> {
    Seq::new(candidates.len(), |i: int| spec_unranked_output(selection, candidates[i]))
}

/// The index of the first selectable entry, if any.
pub open spec fn first_selectable(ranked: Seq<DxgiRankedOutputEvidence>) -> Option<int> {
    if exists|k: int| 0 <= k < ranked.len() && (#[trigger] ranked[k]).selectable {
        Some(
            choose|k: int|
                0 <= k < ranked.len() && (#[trigger] ranked[k]).selectable && forall|j: int|
                    0 <= j < k ==> !(#[trigger] ranked[j]).selectable,
        )
    } else {
        None
    }
}

/// `ranked` is `unranked` permuted by `order`, numbered from one, with exactly the first
/// selectable entry (if any) marked as selected.
pub open spec fn is_ranking_of(
    unranked: Seq<DxgiRankedOutputEvidence>,
    ranked: Seq<DxgiRankedOutputEvidence>,
    order: Seq<int>,
) -> bool {
    &&& is_output_order(unranked, order)
    &&& ranked.len() == unranked.len()
    &&& forall|k: int|
        0 <= k < ranked.len() ==> {
            let u = unranked[#[trigger] order[k]];
            let r = ranked[k];
            &&& r.rank == (if k + 1 > u32::MAX { u32::MAX as int } else { k + 1 })
            &&& r.candidate == u.candidate
            &&& r.intersection_bounds == u.intersection_bounds
            &&& r.intersection_area == u.intersection_area
            &&& r.selection_area == u.selection_area
            &&& r.contains_selection_center == u.contains_selection_center
            &&& r.selectable == u.selectable
            &&& r.rejection_reason == u.rejection_reason
            &&& r.selected == (u.selectable && forall|j: int|
                0 <= j < k ==> !(#[trigger] unranked[order[j]]).selectable)
        }
}

fn selection_center(selection: MonitorCaptureBounds) -> (r: (i64, i64))
    ensures
        r == spec_selection_center(selection),
{
    (
        selection.origin_x as i64 + selection.width as i64 / 2,
        selection.origin_y as i64 + selection.height as i64 / 2,
    )
}

fn intersection_bounds(selection: MonitorCaptureBounds, output: MonitorCaptureBounds) -> (r:
    Option<MonitorCaptureBounds>)
    ensures
        r == spec_intersection_bounds(selection, output),
{
    let selection_right = match selection.right() {
        Some(v) => v as i64,
        None => return None,
    };
    let selection_bottom = match selection.bottom() {
        Some(v) => v as i64,
        None => return None,
    };
    let output_right = match output.right() {
        Some(v) => v as i64,
        None => return None,
    };
    let output_bottom = match output.bottom() {
        Some(v) => v as i64,
        None => return None,
    };
    let left: i64 = if selection.origin_x >= output.origin_x {
        selection.origin_x as i64
    } else {
        output.origin_x as i64
    };
    let top: i64 = if selection.origin_y >= output.origin_y {
        selection.origin_y as i64
    } else {
        output.origin_y as i64
    };
    let right: i64 = if selection_right <= output_right {
        selection_right
    } else {
        output_right
    };
    let bottom: i64 = if selection_bottom <= output_bottom {
        selection_bottom
    } else {
        output_bottom
    };
    if right <= left || bottom <= top {
        return None;
    }
    Some(
        MonitorCaptureBounds::new(
            left as i32,
            top as i32,
            (right - left) as u32,
            (bottom - top) as u32,
        ),
    )
}

fn contains_selection_center(selection: MonitorCaptureBounds, output: MonitorCaptureBounds) -> (r:
    bool)
    ensures
        r == spec_contains_selection_center(selection, output),
{
    let selection_right = match selection.right() {
        Some(v) => v,
        None => return false,
    };
    let selection_bottom = match selection.bottom() {
        Some(v) => v,
        None => return false,
    };
    let output_right = match output.right() {
        Some(v) => v,
        None => return false,
    };
    let output_bottom = match output.bottom() {
        Some(v) => v,
        None => return false,
    };
    let center_x: i64 = selection.origin_x as i64 + selection.width as i64 / 2;
    let center_y: i64 = selection.origin_y as i64 + selection.height as i64 / 2;
    center_x >= output.origin_x as i64 && center_x < output_right as i64 && center_y
        >= output.origin_y as i64 && center_y < output_bottom as i64 && selection_right
        > output.origin_x && selection_bottom > output.origin_y
}

fn ranked_output_without_rank(
    selection: MonitorCaptureBounds,
    selection_valid: bool,
    candidate: DxgiOutputCandidate,
) -> (r: DxgiRankedOutputEvidence)
    requires
        selection_valid == selection_is_valid(selection),
    ensures
        r == spec_unranked_output(selection, candidate),
{
    let bounds = if selection_valid {
        intersection_bounds(selection, candidate.desktop_bounds)
    } else {
        None
    };
    let area: u64 = match bounds {
        Some(b) => {
            proof {
                let w = b.width as int;
                let h = b.height as int;
                assert(w * h <= 0xffff_ffff * 0xffff_ffff) by (nonlinear_arith)
                    requires
                        0 <= w <= 0xffff_ffff,
                        0 <= h <= 0xffff_ffff,
                ;
            }
            b.width as u64 * b.height as u64
        },
        None => 0,
    };
    let selectable = area > 0;
    let selection_area: u64 = if selection_valid {
        proof {
            let w = selection.width as int;
            let h = selection.height as int;
            assert(w * h <= 0xffff_ffff * 0xffff_ffff) by (nonlinear_arith)
                requires
                    0 <= w <= 0xffff_ffff,
                    0 <= h <= 0xffff_ffff,
            ;
        }
        selection.width as u64 * selection.height as u64
    } else {
        0
    };
    let center = selectable && contains_selection_center(selection, candidate.desktop_bounds);
    let rejection_reason = if selectable {
        None
    } else if !selection_valid {
        Some("invalid-selection")
    } else {
        Some("no-intersection")
    };
    DxgiRankedOutputEvidence {
        rank: 0,
        candidate,
        intersection_bounds: bounds,
        intersection_area: area,
        selection_area,
        contains_selection_center: center,
        selectable,
        selected: false,
        rejection_reason,
    }
}

fn output_less_exec(a: &DxgiRankedOutputEvidence, b: &DxgiRankedOutputEvidence) -> (r: bool)
    ensures
        r == output_less(*a, *b),
{
    if a.selectable != b.selectable {
        a.selectable
    } else if a.intersection_area != b.intersection_area {
        a.intersection_area > b.intersection_area
    } else if a.contains_selection_center != b.contains_selection_center {
        a.contains_selection_center
    } else if a.candidate.adapter_index != b.candidate.adapter_index {
        a.candidate.adapter_index < b.candidate.adapter_index
    } else {
        a.candidate.output_index < b.candidate.output_index
    }
}

/// Ranks every candidate against the selection and selects the best intersecting one.
/// `r` is the audit record of ranking `candidates` for `selection`: the policy, the
/// request, its center, every candidate ranked (with its intersection, center test and
/// verdict) in policy order, and the first selectable one selected.
pub open spec fn is_ranking_evidence(
    selection: MonitorCaptureBounds,
    candidates: Seq<DxgiOutputCandidate>,
    r: DxgiOutputRankingEvidence,
) -> bool {
    &&& r.policy_version == 1
    &&& r.policy@ == DXGI_OUTPUT_RANKING_POLICY@
    &&& r.requested_bounds == selection
    &&& r.selection_center == (if selection_is_valid(selection) {
        Some(spec_selection_center(selection))
    } else {
        None
    })
    &&& r.candidate_count == candidates.len()
    &&& !r.persistent_handle_exposed
    &&& exists|order: Seq<int>|
        is_ranking_of(spec_unranked_outputs(selection, candidates), r.ranked_outputs@, order)
    &&& match first_selectable(r.ranked_outputs@) {
        Some(k) => r.selected_rank == Some(
            (if k + 1 > u32::MAX { u32::MAX as int } else { k + 1 }) as u32,
        ) && r.selected_output == Some(r.ranked_outputs@[k].candidate),
        None => r.selected_rank is None && r.selected_output is None,
    }
}

pub fn rank_dxgi_outputs_for_selection(
    selection: MonitorCaptureBounds,
    candidates: &[DxgiOutputCandidate],
) -> (r: DxgiOutputRankingEvidence)
    ensures
        is_ranking_evidence(selection, candidates@, r),
{
    let selection_valid = !selection.is_empty() && selection.right().is_some()
        && selection.bottom().is_some();
    let selection_center = if selection_valid {
        Some(selection_center(selection))
    } else {
        None
    };
    let n = candidates.len();
    let ghost unranked = spec_unranked_outputs(selection, candidates@);
    let mut items: Vec<DxgiRankedOutputEvidence> = Vec::new();
    let mut i: usize = 0;
    while i < n
        invariant
            n == candidates@.len(),
            selection_valid == selection_is_valid(selection),
            unranked == spec_unranked_outputs(selection, candidates@),
            i <= n,
            items@ == unranked.subrange(0, i as int),
        decreases n - i,
    {
        items.push(ranked_output_without_rank(selection, selection_valid, candidates[i]));
        i = i + 1;
        proof {
            assert(items@ =~= unranked.subrange(0, i as int));
        }
    }
    proof {
        assert(items@ =~= unranked);
    }
    let mut order: Vec<usize> = Vec::new();
    let mut i: usize = 0;
    while i < n
        invariant
            n == items@.len(),
            items@ == unranked,
            i <= n,
            order@.len() == i,
            forall|k: int| 0 <= k < order@.len() ==> #[trigger] order@[k] < i,
            forall|k1: int, k2: int|
                0 <= k1 < k2 < order@.len() ==> output_ranks_before(
                    unranked,
                    #[trigger] order@[k1] as int,
                    #[trigger] order@[k2] as int,
                ),
        decreases n - i,
    {
        let mut pos: usize = 0;
        while pos < order.len() && !output_less_exec(&items[i], &items[order[pos]])
            invariant
                n == items@.len(),
                items@ == unranked,
                i < n,
                pos <= order@.len(),
                forall|k: int| 0 <= k < order@.len() ==> #[trigger] order@[k] < i,
                forall|k: int|
                    0 <= k < pos ==> output_ranks_before(unranked, #[trigger] order@[k] as int, i as int),
            decreases order@.len() - pos,
        {
            proof {
                let o = order@[pos as int] as int;
                assert(output_ranks_before(unranked, o, i as int));
            }
            pos = pos + 1;
        }
        proof {
            assert forall|k: int| pos <= k < order@.len() implies output_ranks_before(
                unranked,
                i as int,
                #[trigger] order@[k] as int,
            ) by {
                if k > pos {
                    assert(output_ranks_before(unranked, order@[pos as int] as int, order@[k] as int));
                }
            }
        }
        let ghost before = order@;
        order.insert(pos, i);
        proof {
            assert forall|k1: int, k2: int|
                0 <= k1 < k2 < order@.len() implies output_ranks_before(
                unranked,
                #[trigger] order@[k1] as int,
                #[trigger] order@[k2] as int,
            ) by {
                if k2 < pos {
                    assert(order@[k1] == before[k1] && order@[k2] == before[k2]);
                } else if k2 == pos {
                    assert(order@[k1] == before[k1]);
                } else if k1 < pos {
                    assert(order@[k1] == before[k1] && order@[k2] == before[k2 - 1]);
                } else if k1 == pos {
                    assert(order@[k2] == before[k2 - 1]);
                } else {
                    assert(order@[k1] == before[k1 - 1] && order@[k2] == before[k2 - 1]);
                }
            }
        }
        i = i + 1;
    }
    let ghost witness = Seq::new(n as nat, |j: int| order@[j] as int);
    let mut ranked: Vec<DxgiRankedOutputEvidence> = Vec::new();
    let mut selected_index: Option<usize> = None;
    let mut k: usize = 0;
    while k < n
        invariant
            n == items@.len(),
            items@ == unranked,
            order@.len() == n,
            witness.len() == n,
            forall|j: int| 0 <= j < n ==> #[trigger] witness[j] == order@[j] as int,
            forall|j: int| 0 <= j < order@.len() ==> #[trigger] order@[j] < n,
            k <= n,
            ranked@.len() == k,
            forall|j: int|
                0 <= j < k ==> {
                    let u = unranked[#[trigger] witness[j]];
                    let r = ranked@[j];
                    &&& r.rank == (if j + 1 > u32::MAX { u32::MAX as int } else { j + 1 })
                    &&& r.candidate == u.candidate
                    &&& r.intersection_bounds == u.intersection_bounds
                    &&& r.intersection_area == u.intersection_area
                    &&& r.selection_area == u.selection_area
                    &&& r.contains_selection_center == u.contains_selection_center
                    &&& r.selectable == u.selectable
                    &&& r.rejection_reason == u.rejection_reason
                    &&& r.selected == (u.selectable && forall|m: int|
                        0 <= m < j ==> !(#[trigger] unranked[witness[m]]).selectable)
                },
            match selected_index {
                Some(s) => s < k && unranked[witness[s as int]].selectable && forall|m: int|
                    0 <= m < s ==> !(#[trigger] unranked[witness[m]]).selectable,
                None => forall|m: int| 0 <= m < k ==> !(#[trigger] unranked[witness[m]]).selectable,
            },
        decreases n - k,
    {
        let mut entry = items[order[k]];
        let rank: u32 = if k >= u32::MAX as usize { u32::MAX } else { k as u32 + 1 };
        entry.rank = rank;
        let is_first = entry.selectable && selected_index.is_none();
        entry.selected = is_first;
        if is_first {
            selected_index = Some(k);
        }
        proof {
            assert(witness[k as int] == order@[k as int] as int);
        }
        ranked.push(entry);
        k = k + 1;
    }
    proof {
        assert forall|k1: int, k2: int|
            0 <= k1 < k2 < witness.len() implies output_ranks_before(
            unranked,
            #[trigger] witness[k1],
            #[trigger] witness[k2],
        ) by {
            assert(output_ranks_before(unranked, order@[k1] as int, order@[k2] as int));
        }
        assert(is_output_order(unranked, witness));
        assert(is_ranking_of(unranked, ranked@, witness));
    }
    let selected_rank: Option<u32> = match selected_index {
        Some(s) => Some(if s >= u32::MAX as usize { u32::MAX } else { s as u32 + 1 }),
        None => None,
    };
    let selected_output = match selected_index {
        Some(s) => Some(ranked[s].candidate),
        None => None,
    };
    proof {
        match selected_index {
            Some(s) => {
                assert(ranked@[s as int].selectable);
                assert forall|m: int| 0 <= m < s implies !(#[trigger] ranked@[m]).selectable by {
                    assert(ranked@[m].selectable == unranked[witness[m]].selectable);
                }
                let fk = choose|k: int|
                    0 <= k < ranked@.len() && (#[trigger] ranked@[k]).selectable && forall|j: int|
                        0 <= j < k ==> !(#[trigger] ranked@[j]).selectable;
                assert(fk == s as int) by {
                    if fk < s {
                        assert(!ranked@[fk].selectable);
                    } else if fk > s {
                        assert(!ranked@[s as int].selectable);
                    }
                }
            },
            None => {
                assert forall|m: int| 0 <= m < ranked@.len() implies !(
                #[trigger] ranked@[m]).selectable by {
                    assert(ranked@[m].selectable == unranked[witness[m]].selectable);
                }
            },
        }
    }
    DxgiOutputRankingEvidence {
        policy_version: DXGI_OUTPUT_RANKING_POLICY_VERSION,
        policy: DXGI_OUTPUT_RANKING_POLICY,
        requested_bounds: selection,
        selection_center,
        candidate_count: n,
        selected_rank,
        selected_output,
        ranked_outputs: ranked,
        persistent_handle_exposed: false,
    }
}

/// The output that the ranking selects, if any candidate intersects the selection.
pub fn select_dxgi_output_for_selection(
    selection: MonitorCaptureBounds,
    candidates: &[DxgiOutputCandidate],
) -> (r: Option<DxgiOutputSelection>)
    ensures
        exists|order: Seq<int>, ranked: Seq<DxgiRankedOutputEvidence>|
            {
                &&& is_ranking_of(spec_unranked_outputs(selection, candidates@), ranked, order)
                &&& match first_selectable(ranked) {
                    Some(k) => r == Some(
                        DxgiOutputSelection {
                            candidate: ranked[k].candidate,
                            intersection_area: ranked[k].intersection_area,
                            contains_selection_center: ranked[k].contains_selection_center,
                        },
                    ),
                    None => r is None,
                }
            },
{
    let evidence = rank_dxgi_outputs_for_selection(selection, candidates);
    let ghost ranked = evidence.ranked_outputs@;
    let ghost unranked = spec_unranked_outputs(selection, candidates@);
    let ghost order = choose|order: Seq<int>| is_ranking_of(unranked, ranked, order);
    let mut k: usize = 0;
    while k < evidence.ranked_outputs.len()
        invariant
            ranked == evidence.ranked_outputs@,
            unranked == spec_unranked_outputs(selection, candidates@),
            is_ranking_of(unranked, ranked, order),
            k <= ranked.len(),
            forall|j: int| 0 <= j < k ==> !(#[trigger] ranked[j]).selected,
        decreases ranked.len() - k,
    {
        let output = evidence.ranked_outputs[k];
        if output.selected {
            proof {
                lemma_selected_is_first_selectable(unranked, ranked, order, k as int);
                assert(output == ranked[k as int]);
                assert(is_ranking_of(spec_unranked_outputs(selection, candidates@), ranked, order));
            }
            return Some(
                DxgiOutputSelection {
                    candidate: output.candidate,
                    intersection_area: output.intersection_area,
                    contains_selection_center: output.contains_selection_center,
                },
            );
        }
        k = k + 1;
    }
    proof {
        lemma_no_selected_means_none_selectable(unranked, ranked, order);
        assert(is_ranking_of(spec_unranked_outputs(selection, candidates@), ranked, order));
    }
    None
}

proof fn lemma_selected_is_first_selectable(
    unranked: Seq<DxgiRankedOutputEvidence>,
    ranked: Seq<DxgiRankedOutputEvidence>,
    order: Seq<int>,
    k: int,
)
    requires
        is_ranking_of(unranked, ranked, order),
        0 <= k < ranked.len(),
        ranked[k].selected,
    ensures
        first_selectable(ranked) == Some(k),
{
    let uk = unranked[order[k]];
    assert(ranked[k].selected == (uk.selectable && forall|j: int|
        0 <= j < k ==> !(#[trigger] unranked[order[j]]).selectable));
    assert(ranked[k].selectable == uk.selectable);
    assert forall|j: int| 0 <= j < k implies !(#[trigger] ranked[j]).selectable by {
        let uj = unranked[order[j]];
        assert(ranked[j].selectable == uj.selectable);
        assert(!unranked[order[j]].selectable);
    }
    let fk = choose|m: int|
        0 <= m < ranked.len() && (#[trigger] ranked[m]).selectable && forall|j: int|
            0 <= j < m ==> !(#[trigger] ranked[j]).selectable;
    assert(fk == k) by {
        if fk < k {
            assert(!ranked[fk].selectable);
        } else if fk > k {
            assert(!ranked[k].selectable);
        }
    }
}

proof fn lemma_no_selected_means_none_selectable(
    unranked: Seq<DxgiRankedOutputEvidence>,
    ranked: Seq<DxgiRankedOutputEvidence>,
    order: Seq<int>,
)
    requires
        is_ranking_of(unranked, ranked, order),
        forall|j: int| 0 <= j < ranked.len() ==> !(#[trigger] ranked[j]).selected,
    ensures
        first_selectable(ranked) is None,
{
    assert forall|m: int| 0 <= m < ranked.len() implies !(#[trigger] ranked[m]).selectable by {
        if ranked[m].selectable {
            let first = choose|f: int|
                0 <= f <= m && (#[trigger] ranked[f]).selectable && forall|j: int|
                    0 <= j < f ==> !(#[trigger] ranked[j]).selectable;
            lemma_exists_first_selectable(ranked, m);
            assert(ranked[first].selectable == unranked[order[first]].selectable);
            assert forall|j: int| 0 <= j < first implies !(#[trigger] unranked[order[j]]).selectable by {
                assert(ranked[j].selectable == unranked[order[j]].selectable);
            }
            assert(ranked[first].selected);
        }
    }
}

proof fn lemma_exists_first_selectable(ranked: Seq<DxgiRankedOutputEvidence>, m: int)
    requires
        0 <= m < ranked.len(),
        ranked[m].selectable,
    ensures
        exists|f: int|
            0 <= f <= m && (#[trigger] ranked[f]).selectable && forall|j: int|
                0 <= j < f ==> !(#[trigger] ranked[j]).selectable,
    decreases m,
{
    if exists|j: int| 0 <= j < m && (#[trigger] ranked[j]).selectable {
        let j = choose|j: int| 0 <= j < m && (#[trigger] ranked[j]).selectable;
        lemma_exists_first_selectable(ranked, j);
    } else {
        assert(forall|j: int| 0 <= j < m ==> !(#[trigger] ranked[j]).selectable);
    }
}

} // verus!

verus! {

/// The selected output is ranked first, and no ranked output holds more of the
/// selection than it does; when nothing is selected, no output holds any of it.
pub proof fn selected_output_has_largest_intersection(
    selection: MonitorCaptureBounds,
    candidates: Seq<DxgiOutputCandidate>,
    ranked: Seq<DxgiRankedOutputEvidence>,
    order: Seq<int>,
)
    requires
        is_ranking_of(spec_unranked_outputs(selection, candidates), ranked, order),
    ensures
        first_selectable(ranked) matches Some(k) ==> k == 0 && forall|j: int|
            0 <= j < ranked.len() ==> (#[trigger] ranked[j]).intersection_area
                <= ranked[0].intersection_area,
        first_selectable(ranked) is None ==> forall|j: int|
            0 <= j < ranked.len() ==> (#[trigger] ranked[j]).intersection_area == 0,
{
    let unranked = spec_unranked_outputs(selection, candidates);
    assert forall|j: int| 0 <= j < ranked.len() implies (#[trigger] ranked[j]).selectable
        == (ranked[j].intersection_area > 0) by {
        assert(ranked[j].selectable == unranked[order[j]].selectable);
        assert(ranked[j].intersection_area == unranked[order[j]].intersection_area);
    }
    if ranked.len() > 0 {
        assert forall|j: int| 0 < j < ranked.len() implies (#[trigger] ranked[j]).intersection_area
            <= ranked[0].intersection_area && (ranked[j].selectable ==> ranked[0].selectable) by {
            assert(output_ranks_before(unranked, order[0], order[j]));
            assert(ranked[0].selectable == unranked[order[0]].selectable);
            assert(ranked[0].intersection_area == unranked[order[0]].intersection_area);
            assert(ranked[j].selectable == unranked[order[j]].selectable);
            assert(ranked[j].intersection_area == unranked[order[j]].intersection_area);
        }
    }
    match first_selectable(ranked) {
        Some(k) => {
            let fk = choose|m: int|
                0 <= m < ranked.len() && (#[trigger] ranked[m]).selectable && forall|j: int|
                    0 <= j < m ==> !(#[trigger] ranked[j]).selectable;
            assert(ranked[fk].selectable);
            if fk > 0 {
                assert(!ranked[0].selectable);
            }
        },
        None => {
            assert forall|j: int| 0 <= j < ranked.len() implies (#[trigger] ranked[j]).intersection_area
                == 0 by {
                if ranked[j].selectable {
                    lemma_exists_first_selectable(ranked, j);
                }
            }
        },
    }
}

} // verus!
