//! Hover candidates under the pointer and their ranking.
use vstd::prelude::*;

use crate::output::SelectionRect;

verus! {

/// What kind of on-screen object a candidate rectangle outlines.
#[derive(Debug, Clone, Copy, PartialEq, Eq, Structural)]
pub enum CandidateKind {
    Window,
    Taskbar,
    Monitor,
    Visual,
    UiAutomation,
}

impl CandidateKind {
    pub open spec fn spec_default_priority(self) -> u8 {
        match self {
            CandidateKind::Window => 30,
            CandidateKind::Taskbar => 20,
            CandidateKind::Monitor => 10,
            CandidateKind::Visual => 40,
            CandidateKind::UiAutomation => 50,
        }
    }

    /// Finer kinds outrank coarser ones when priorities tie.
    pub open spec fn spec_weight(self) -> u8 {
        match self {
            CandidateKind::UiAutomation => 5,
            CandidateKind::Visual => 4,
            CandidateKind::Window => 3,
            CandidateKind::Taskbar => 2,
            CandidateKind::Monitor => 1,
        }
    }

    pub fn default_priority(self) -> (r: u8)
        ensures
            r == self.spec_default_priority(),
    {
        match self {
            CandidateKind::Window => 30,
            CandidateKind::Taskbar => 20,
            CandidateKind::Monitor => 10,
            CandidateKind::Visual => 40,
            CandidateKind::UiAutomation => 50,
        }
    }
}

fn kind_weight(kind: CandidateKind) -> (r: u8)
    ensures
        r == kind.spec_weight(),
{
    match kind {
        CandidateKind::UiAutomation => 5,
        CandidateKind::Visual => 4,
        CandidateKind::Window => 3,
        CandidateKind::Taskbar => 2,
        CandidateKind::Monitor => 1,
    }
}

/// Where a candidate came from.
#[derive(Debug, Clone, Copy, PartialEq, Eq, Structural)]
pub enum CandidateSource {
    Win32Window,
    ShellTaskbar,
    MonitorTopology,
    VisualTree,
    UiAutomation,
    Heuristic,
}

/// Why the candidate list is rebuilt.
#[derive(Debug, Clone, Copy, PartialEq, Eq, Structural)]
pub enum CandidateRefreshReason {
    SessionStarted,
    PointerMoved,
    FocusChanged,
    DisplayChanged,
    ManualRetry,
}

/// How sure the source is about the rectangle.
#[derive(Debug, Clone, Copy, PartialEq, Eq, Structural)]
pub enum CandidateConfidence {
    Low,
    Medium,
    High,
    Exact,
}

impl CandidateConfidence {
    pub open spec fn spec_score(self) -> u8 {
        match self {
            CandidateConfidence::Low => 1,
            CandidateConfidence::Medium => 2,
            CandidateConfidence::High => 3,
            CandidateConfidence::Exact => 4,
        }
    }

    pub fn score(self) -> (r: u8)
        ensures
            r == self.spec_score(),
    {
        match self {
            CandidateConfidence::Low => 1,
            CandidateConfidence::Medium => 2,
            CandidateConfidence::High => 3,
            CandidateConfidence::Exact => 4,
        }
    }
}

/// A rectangle that the pointer can snap to.
#[derive(Debug, Clone, Copy, PartialEq, Eq, Structural)]
pub struct SelectionCandidate {
    pub kind: CandidateKind,
    pub rect: SelectionRect,
    pub priority: u8,
}

impl SelectionCandidate {
    /// The normalized rectangle is valid and holds the point (right and bottom edges excluded).
    pub open spec fn spec_contains_point(self, x: i32, y: i32) -> bool {
        let rect = self.rect.spec_normalized();
        rect.spec_is_valid() && x >= rect.x && y >= rect.y && x < rect.spec_right() && y
            < rect.spec_bottom()
    }

    pub open spec fn spec_area(self) -> i64 {
        let rect = self.rect.spec_normalized();
        if rect.spec_is_valid() {
            (rect.width * rect.height) as i64
        } else {
            0
        }
    }

    pub open spec fn spec_rank_key(self) -> CandidateRankKey {
        CandidateRankKey {
            priority: self.priority,
            kind_weight: self.kind.spec_weight(),
            smaller_area: (i64::MAX - self.spec_area()) as i64,
        }
    }

    pub fn new(kind: CandidateKind, rect: SelectionRect) -> (r: Self)
        ensures
            r == (SelectionCandidate { kind, rect, priority: kind.spec_default_priority() }),
    {
        Self { kind, rect, priority: kind.default_priority() }
    }

    pub fn with_priority(self, priority: u8) -> (r: Self)
        ensures
            r == (SelectionCandidate { priority, ..self }),
    {
        Self { priority, ..self }
    }

    pub fn is_valid(&self) -> (r: bool)
        ensures
            r == self.rect.spec_normalized().spec_is_valid(),
    {
        self.rect.normalized().is_valid()
    }

    pub fn contains_point(&self, x: i32, y: i32) -> (r: bool)
        ensures
            r == self.spec_contains_point(x, y),
    {
        let rect = self.rect.normalized();
        rect.is_valid() && x as i64 >= rect.x as i64 && y as i64 >= rect.y as i64 && (x as i64)
            < rect.right() && (y as i64) < rect.bottom()
    }

    pub fn area(&self) -> (r: i64)
        ensures
            r == self.spec_area(),
            r >= 0,
    {
        let rect = self.rect.normalized();
        if !rect.is_valid() {
            return 0;
        }
        proof {
            let w = rect.width as int;
            let h = rect.height as int;
            assert(0 < w * h <= 0x7fff_ffff * 0x7fff_ffff) by (nonlinear_arith)
                requires
                    0 < w <= 0x7fff_ffff,
                    0 < h <= 0x7fff_ffff,
            ;
        }
        rect.width as i64 * rect.height as i64
    }

    pub fn rank_key(&self) -> (r: CandidateRankKey)
        ensures
            r == self.spec_rank_key(),
    {
        let area = self.area();
        CandidateRankKey {
            priority: self.priority,
            kind_weight: kind_weight(self.kind),
            smaller_area: i64::MAX - area,
        }
    }
}

/// A candidate with its provenance.
#[derive(Debug, Clone, PartialEq, Eq)]
pub struct CandidateDescriptor {
    pub candidate: SelectionCandidate,
    pub source: CandidateSource,
    pub confidence: CandidateConfidence,
    pub title: Option<String>,
}

impl CandidateDescriptor {
    /// The candidate's key with the confidence score added to its priority (saturating).
    pub open spec fn spec_rank_key(&self) -> CandidateRankKey {
        let base = self.candidate.spec_rank_key();
        CandidateRankKey {
            priority: if base.priority + self.confidence.spec_score() > u8::MAX {
                u8::MAX
            } else {
                (base.priority + self.confidence.spec_score()) as u8
            },
            kind_weight: base.kind_weight,
            smaller_area: base.smaller_area,
        }
    }

    pub fn new(
        candidate: SelectionCandidate,
        source: CandidateSource,
        confidence: CandidateConfidence,
    ) -> (r: Self)
        ensures
            r == (CandidateDescriptor { candidate, source, confidence, title: None }),
    {
        Self { candidate, source, confidence, title: None }
    }

    pub fn with_title(self, title: &str) -> (r: Self)
        ensures
            r.candidate == self.candidate,
            r.source == self.source,
            r.confidence == self.confidence,
            r.title matches Some(t) && t@ == title@,
    {
        Self { title: Some(String::from_str(title)), ..self }
    }

    pub fn rank_key(&self) -> (r: CandidateRankKey)
        ensures
            r == self.spec_rank_key(),
    {
        let base = self.candidate.rank_key();
        CandidateRankKey {
            priority: base.priority.saturating_add(self.confidence.score()),
            kind_weight: base.kind_weight,
            smaller_area: base.smaller_area,
        }
    }

    fn duplicate(&self) -> (r: Self)
        ensures
            r == *self,
    {
        let title = match &self.title {
            Some(t) => Some(t.clone()),
            None => None,
        };
        Self { candidate: self.candidate, source: self.source, confidence: self.confidence, title }
    }
}

/// Lexicographic ranking key: priority, then kind weight, then smaller area.
#[derive(Debug, Clone, Copy, PartialEq, Eq, Structural, PartialOrd, Ord)]
pub struct CandidateRankKey {
    pub priority: u8,
    pub kind_weight: u8,
    pub smaller_area: i64,
}

/// `a` is ranked strictly below `b` in the lexicographic order of the fields.
pub open spec fn rank_key_lt(a: CandidateRankKey, b: CandidateRankKey) -> bool {
    a.priority < b.priority || (a.priority == b.priority && (a.kind_weight < b.kind_weight || (
    a.kind_weight == b.kind_weight && a.smaller_area < b.smaller_area)))
}

fn rank_key_lt_exec(a: CandidateRankKey, b: CandidateRankKey) -> (r: bool)
    ensures
        r == rank_key_lt(a, b),
{
    a.priority < b.priority || (a.priority == b.priority && (a.kind_weight < b.kind_weight || (
    a.kind_weight == b.kind_weight && a.smaller_area < b.smaller_area)))
}

/// Item `a` comes before item `b`: it has the greater key, or the same key and a later
/// position (the later of equal maxima wins).
pub open spec fn ranks_before(items: Seq<CandidateDescriptor>, a: int, b: int) -> bool {
    rank_key_lt(items[b].spec_rank_key(), items[a].spec_rank_key()) || (items[a].spec_rank_key()
        == items[b].spec_rank_key() && a > b)
}

/// `order` lists every position of `items` exactly once, best ranked first.
pub open spec fn is_rank_order(items: Seq<CandidateDescriptor>, order: Seq<int>) -> bool {
    &&& order.len() == items.len()
    &&& forall|k: int| 0 <= k < order.len() ==> 0 <= #[trigger] order[k] < items.len()
    &&& forall|k1: int, k2: int|
        0 <= k1 < k2 < order.len() ==> ranks_before(items, #[trigger] order[k1], #[trigger] order[k2])
}

/// The candidate found under the pointer.
#[derive(Debug, Clone, PartialEq, Eq)]
pub struct CandidateHit {
    pub descriptor: CandidateDescriptor,
    pub pointer_x: i32,
    pub pointer_y: i32,
}

/// The candidates known for the current screen.
#[derive(Debug, Clone, PartialEq, Eq)]
pub struct CandidateSet {
    pub items: Vec<CandidateDescriptor>,
}

impl Default for CandidateSet {
    fn default() -> (r: Self)
        ensures
            r.items@.len() == 0,
    {
        Self { items: Vec::new() }
    }
}

impl CandidateSet {
    pub fn new(items: Vec<CandidateDescriptor>) -> (r: Self)
        ensures
            r.items@ == items@,
    {
        Self { items }
    }

    pub fn is_empty(&self) -> (r: bool)
        ensures
            r == (self.items@.len() == 0),
    {
        self.items.len() == 0
    }

    /// The best-ranked candidate containing the point; of equal keys the later one wins.
    pub fn best_at(&self, x: i32, y: i32) -> (r: Option<CandidateHit>)
        ensures
            r is None <==> forall|i: int|
                0 <= i < self.items@.len() ==> !(#[trigger] self.items@[i]).candidate.spec_contains_point(
                    x,
                    y,
                ),
            r matches Some(hit) ==> hit.pointer_x == x && hit.pointer_y == y && exists|i: int|
                {
                    &&& 0 <= i < self.items@.len()
                    &&& hit.descriptor == self.items@[i]
                    &&& self.items@[i].candidate.spec_contains_point(x, y)
                    &&& forall|j: int|
                        0 <= j < self.items@.len() && j != i
                            && (#[trigger] self.items@[j]).candidate.spec_contains_point(x, y)
                            ==> ranks_before(self.items@, i, j)
                },
    {
        let n = self.items.len();
        let mut best: Option<usize> = None;
        let mut best_key = CandidateRankKey { priority: 0, kind_weight: 0, smaller_area: 0 };
        let mut i: usize = 0;
        while i < n
            invariant
                n == self.items@.len(),
                i <= n,
                best is None ==> forall|j: int|
                    0 <= j < i ==> !(#[trigger] self.items@[j]).candidate.spec_contains_point(x, y),
                best matches Some(b) ==> {
                    &&& b < i
                    &&& self.items@[b as int].candidate.spec_contains_point(x, y)
                    &&& best_key == self.items@[b as int].spec_rank_key()
                    &&& forall|j: int|
                        0 <= j < i && j != b && (#[trigger] self.items@[j]).candidate.spec_contains_point(
                            x,
                            y,
                        ) ==> ranks_before(self.items@, b as int, j)
                },
            decreases n - i,
        {
            if self.items[i].candidate.contains_point(x, y) {
                let key = self.items[i].rank_key();
                let replace = match best {
                    None => true,
                    Some(_) => !rank_key_lt_exec(key, best_key),
                };
                if replace {
                    best = Some(i);
                    best_key = key;
                }
            }
            i = i + 1;
        }
        match best {
            None => None,
            Some(b) => Some(
                CandidateHit { descriptor: self.items[b].duplicate(), pointer_x: x, pointer_y: y },
            ),
        }
    }

    /// The candidates from best to worst ranked; of equal keys the later one comes first.
    pub fn sorted(self) -> (r: Self)
        ensures
            r.items@.len() == self.items@.len(),
            exists|order: Seq<int>|
                {
                    &&& is_rank_order(self.items@, order)
                    &&& forall|k: int|
                        0 <= k < order.len() ==> r.items@[k] == self.items@[#[trigger] order[k]]
                },
    {
        let n = self.items.len();
        let mut order: Vec<usize> = Vec::new();
        let mut i: usize = 0;
        while i < n
            invariant
                n == self.items@.len(),
                i <= n,
                order@.len() == i,
                forall|k: int| 0 <= k < order@.len() ==> #[trigger] order@[k] < i,
                forall|k1: int, k2: int|
                    0 <= k1 < k2 < order@.len() ==> ranks_before(
                        self.items@,
                        #[trigger] order@[k1] as int,
                        #[trigger] order@[k2] as int,
                    ),
            decreases n - i,
        {
            let key = self.items[i].rank_key();
            let mut pos: usize = 0;
            while pos < order.len() && rank_key_lt_exec(key, self.items[order[pos]].rank_key())
                invariant
                    n == self.items@.len(),
                    i < n,
                    pos <= order@.len(),
                    key == self.items@[i as int].spec_rank_key(),
                    forall|k: int| 0 <= k < order@.len() ==> #[trigger] order@[k] < i,
                    forall|k: int|
                        0 <= k < pos ==> ranks_before(self.items@, #[trigger] order@[k] as int, i as int),
                decreases order@.len() - pos,
            {
                pos = pos + 1;
            }
            proof {
                assert forall|k: int| pos <= k < order@.len() implies ranks_before(
                    self.items@,
                    i as int,
                    #[trigger] order@[k] as int,
                ) by {
                    if k > pos {
                        assert(ranks_before(self.items@, order@[pos as int] as int, order@[k] as int));
                    }
                }
            }
            let ghost before = order@;
            order.insert(pos, i);
            proof {
                assert forall|k1: int, k2: int|
                    0 <= k1 < k2 < order@.len() implies ranks_before(
                    self.items@,
                    #[trigger] order@[k1] as int,
                    #[trigger] order@[k2] as int,
                ) by {
                    if k2 < pos {
                        assert(order@[k1] == before[k1] && order@[k2] == before[k2]);
                    } else if k2 == pos {
                        assert(order@[k1] == before[k1]);
                    } else if k1 < pos {
                        assert(order@[k1] == before[k1] && order@[k2] == before[k2 - 1]);
                    } else if k1 == pos {
                        assert(order@[k2] == before[k2 - 1]);
                    } else {
                        assert(order@[k1] == before[k1 - 1] && order@[k2] == before[k2 - 1]);
                    }
                }
            }
            i = i + 1;
        }
        let mut items: Vec<CandidateDescriptor> = Vec::new();
        let mut k: usize = 0;
        while k < n
            invariant
                n == self.items@.len(),
                order@.len() == n,
                forall|j: int| 0 <= j < order@.len() ==> #[trigger] order@[j] < n,
                k <= n,
                items@.len() == k,
                forall|j: int| 0 <= j < k ==> items@[j] == self.items@[#[trigger] order@[j] as int],
            decreases n - k,
        {
            items.push(self.items[order[k]].duplicate());
            k = k + 1;
        }
        let ghost witness = Seq::new(n as nat, |j: int| order@[j] as int);
        proof {
            assert forall|k1: int, k2: int|
                0 <= k1 < k2 < witness.len() implies ranks_before(
                self.items@,
                #[trigger] witness[k1],
                #[trigger] witness[k2],
            ) by {
                assert(ranks_before(self.items@, order@[k1] as int, order@[k2] as int));
            }
            assert(is_rank_order(self.items@, witness));
            assert forall|j: int| 0 <= j < witness.len() implies items@[j] == self.items@[
                #[trigger] witness[j]
            ] by {
                assert(witness[j] == order@[j] as int);
            }
        }
        Self { items }
    }
}

/// Which candidate sources a refresh consults.
#[derive(Debug, Clone, PartialEq, Eq, Structural)]
pub struct CandidateRefreshContract {
    pub reason: CandidateRefreshReason,
    pub include_windows: bool,
    pub include_monitors: bool,
    pub include_visual_tree: bool,
    pub include_ui_automation: bool,
}

impl CandidateRefreshContract {
    pub fn for_reason(reason: CandidateRefreshReason) -> (r: Self)
        ensures
            r == (CandidateRefreshContract {
                reason,
                include_windows: true,
                include_monitors: true,
                include_visual_tree: true,
                include_ui_automation: true,
            }),
    {
        Self {
            reason,
            include_windows: true,
            include_monitors: true,
            include_visual_tree: true,
            include_ui_automation: true,
        }
    }
}

/// Ranking never ties two different positions: of any two positions exactly one
/// comes first.
pub proof fn ranks_before_is_strict_total(items: Seq<CandidateDescriptor>, a: int, b: int)
    requires
        a != b,
    ensures
        ranks_before(items, a, b) != ranks_before(items, b, a),
{
}


/// The number of pixels of a candidate's normalized rectangle.
pub open spec fn candidate_pixels(c: SelectionCandidate) -> int {
    let rect = c.rect.spec_normalized();
    rect.width * rect.height
}

/// Two descriptors that differ at most in their rectangles and titles: same priority,
/// same confidence, same kind.
pub open spec fn same_rank_class(a: CandidateDescriptor, b: CandidateDescriptor) -> bool {
    &&& a.candidate.priority == b.candidate.priority
    &&& a.confidence == b.confidence
    &&& a.candidate.kind == b.candidate.kind
}

/// Of two candidates under the pointer with the same priority, confidence and kind, the
/// one with fewer pixels ranks first.
pub proof fn smaller_candidate_ranks_first(
    items: Seq<CandidateDescriptor>,
    i: int,
    j: int,
    x: i32,
    y: i32,
)
    requires
        0 <= i < items.len() && 0 <= j < items.len(),
        items[i].candidate.spec_contains_point(x, y),
        items[j].candidate.spec_contains_point(x, y),
        same_rank_class(items[i], items[j]),
        candidate_pixels(items[i].candidate) < candidate_pixels(items[j].candidate),
    ensures
        ranks_before(items, i, j),
        !ranks_before(items, j, i),
{
    let a = items[i].candidate.rect.spec_normalized();
    let b = items[j].candidate.rect.spec_normalized();
    assert(0 < a.width * a.height <= 0x7fff_ffff * 0x7fff_ffff) by (nonlinear_arith)
        requires
            0 < a.width <= 0x7fff_ffff,
            0 < a.height <= 0x7fff_ffff,
    ;
    assert(0 < b.width * b.height <= 0x7fff_ffff * 0x7fff_ffff) by (nonlinear_arith)
        requires
            0 < b.width <= 0x7fff_ffff,
            0 < b.height <= 0x7fff_ffff,
    ;
    assert(items[i].candidate.spec_area() == a.width * a.height);
    assert(items[j].candidate.spec_area() == b.width * b.height);
}

/// The candidate that `best_at` picks (one that holds the point and ranks before every
/// other candidate holding it) has no more pixels than any other candidate under the
/// pointer with the same priority, confidence and kind.
pub proof fn best_candidate_is_smallest_of_its_rank(items: Seq<CandidateDescriptor>, k: int, x: i32, y: i32)
    requires
        0 <= k < items.len(),
        items[k].candidate.spec_contains_point(x, y),
        forall|j: int|
            0 <= j < items.len() && j != k && (#[trigger] items[j]).candidate.spec_contains_point(x, y)
                ==> ranks_before(items, k, j),
    ensures
        forall|i: int|
            0 <= i < items.len() && i != k && (#[trigger] items[i]).candidate.spec_contains_point(x, y)
                && same_rank_class(items[i], items[k]) ==> candidate_pixels(items[k].candidate)
                <= candidate_pixels(items[i].candidate),
{
    assert forall|i: int|
        0 <= i < items.len() && i != k && (#[trigger] items[i]).candidate.spec_contains_point(x, y)
            && same_rank_class(items[i], items[k]) implies candidate_pixels(items[k].candidate)
        <= candidate_pixels(items[i].candidate) by {
        if candidate_pixels(items[i].candidate) < candidate_pixels(items[k].candidate) {
            smaller_candidate_ranks_first(items, i, k, x, y);
            assert(ranks_before(items, k, i));
        }
    }
}


/// Of two candidates with the same confidence, the one with the strictly higher priority
/// ranks first, whatever their kinds and sizes (as long as adding the confidence score
/// does not saturate).
pub proof fn higher_priority_ranks_first(items: Seq<CandidateDescriptor>, i: int, j: int)
    requires
        0 <= i < items.len() && 0 <= j < items.len(),
        items[i].confidence == items[j].confidence,
        items[i].candidate.priority > items[j].candidate.priority,
        items[i].candidate.priority + items[i].confidence.spec_score() <= u8::MAX,
    ensures
        ranks_before(items, i, j),
        !ranks_before(items, j, i),
{
}

/// Of two candidates with the same priority, the one reported with the strictly higher
/// confidence ranks first, whatever their kinds and sizes (as long as adding the
/// confidence score does not saturate).
pub proof fn higher_confidence_ranks_first(items: Seq<CandidateDescriptor>, i: int, j: int)
    requires
        0 <= i < items.len() && 0 <= j < items.len(),
        items[i].candidate.priority == items[j].candidate.priority,
        items[i].confidence.spec_score() > items[j].confidence.spec_score(),
        items[i].candidate.priority + items[i].confidence.spec_score() <= u8::MAX,
    ensures
        ranks_before(items, i, j),
        !ranks_before(items, j, i),
{
}

} // verus!
