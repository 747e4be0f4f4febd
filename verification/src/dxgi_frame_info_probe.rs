//! The DXGI frame-info probe: does duplication hand out a frame, on the default output and
//! on the output of the selection?
use vstd::prelude::*;

use crate::capture::MonitorCaptureBounds;
use crate::dxgi_output::DxgiOutputRankingEvidence;
use crate::dxgi_session::DxgiOutduplFrameInfoDiagnostics;
use crate::dxgi_smoke::identity_indices;
use crate::text::{chars_contain, contains_text, str_chars};

verus! {

/// The total time a probe path may spend acquiring frames.
pub const FRAME_INFO_PROBE_BUDGET_MS: u32 = 500;

/// The longest single acquire attempt of a probe path.
pub const FRAME_INFO_ATTEMPT_TIMEOUT_MS: u32 = 50;

/// Which output a probe path duplicates.
#[derive(Debug, Clone, Copy, PartialEq, Eq, Structural)]
pub enum DxgiFrameInfoProbePath {
    DefaultOutput,
    SelectedOutput,
}

impl DxgiFrameInfoProbePath {
    pub open spec fn spec_as_str(self) -> Seq<char> {
        match self {
            DxgiFrameInfoProbePath::DefaultOutput => "default-output"@,
            DxgiFrameInfoProbePath::SelectedOutput => "selected-output"@,
        }
    }

    pub fn as_str(self) -> (r: &'static str)
        ensures
            r@ == self.spec_as_str(),
    {
        match self {
            DxgiFrameInfoProbePath::DefaultOutput => "default-output",
            DxgiFrameInfoProbePath::SelectedOutput => "selected-output",
        }
    }
}

/// One acquire attempt of a probe path.
#[derive(Debug, Clone, PartialEq, Eq)]
pub struct DxgiFrameInfoProbeAttempt {
    pub attempt: u32,
    pub timeout_ms: u32,
    pub elapsed_budget_ms: u32,
    pub ok: bool,
    pub timed_out: bool,
    pub access_lost: bool,
    pub hresult_hex: Option<String>,
    pub error: Option<String>,
    pub frame_info: Option<DxgiOutduplFrameInfoDiagnostics>,
    pub released_frame: bool,
}

/// What one probe path did.
#[derive(Debug, Clone, PartialEq)]
pub struct DxgiFrameInfoProbePathReport {
    pub path: DxgiFrameInfoProbePath,
    pub attempted: bool,
    pub ok: bool,
    pub output_bounds: Option<MonitorCaptureBounds>,
    pub adapter_index: Option<u32>,
    pub output_index: Option<u32>,
    pub output_ranking: Option<DxgiOutputRankingEvidence>,
    pub attempts: Vec<DxgiFrameInfoProbeAttempt>,
    pub stopped: bool,
    pub error: Option<String>,
}

impl DxgiFrameInfoProbePathReport {
    /// The path stopped before duplication was started, for `error`.
    pub open spec fn spec_failed_before_start(
        self,
        path: DxgiFrameInfoProbePath,
        error: Seq<char>,
    ) -> bool {
        &&& self.path == path
        &&& !self.attempted && !self.ok && !self.stopped
        &&& self.output_bounds is None && self.adapter_index is None && self.output_index is None
        &&& self.output_ranking is None
        &&& self.attempts@.len() == 0
        &&& self.error matches Some(text) && text@ == error
    }

    pub fn failed_before_start(path: DxgiFrameInfoProbePath, error: &str) -> (r: Self)
        ensures
            r.spec_failed_before_start(path, error@),
    {
        Self {
            path,
            attempted: false,
            ok: false,
            output_bounds: None,
            adapter_index: None,
            output_index: None,
            output_ranking: None,
            attempts: Vec::new(),
            stopped: false,
            error: Some(error.to_owned()),
        }
    }
}

/// What the probe did on both paths.
#[derive(Debug, Clone, PartialEq)]
pub struct DxgiFrameInfoProbeReport {
    pub attempted: bool,
    pub ok: bool,
    pub requested_bounds: MonitorCaptureBounds,
    pub default_output: DxgiFrameInfoProbePathReport,
    pub selected_output: DxgiFrameInfoProbePathReport,
    pub error: Option<String>,
}

/// The text of a probe refused for empty bounds: the probe's complaint, then the bounds
/// as `Debug` prints them.
pub open spec fn spec_empty_bounds_error(complaint: Seq<char>, bounds: MonitorCaptureBounds) -> Seq<char> {
    complaint + bounds.spec_debug()
}

/// Probes frame delivery on the default output and on the selection's output.
///
/// Empty bounds are refused before anything is started. Past that, this build has no
/// DXGI, so neither path is attempted and both name the platform.
pub fn run_dxgi_frame_info_probe(bounds: MonitorCaptureBounds) -> (r: DxgiFrameInfoProbeReport)
    ensures
        !r.attempted && !r.ok,
        r.requested_bounds == bounds,
        r.error matches Some(text) && text@ == (if bounds.spec_is_empty() {
            spec_empty_bounds_error("DXGI frame-info probe requires non-empty bounds: "@, bounds)
        } else {
            "DXGI frame-info probe requires Windows"@
        }),
        r.default_output.spec_failed_before_start(
            DxgiFrameInfoProbePath::DefaultOutput,
            r.error->0@,
        ),
        r.selected_output.spec_failed_before_start(
            DxgiFrameInfoProbePath::SelectedOutput,
            r.error->0@,
        ),
{
    let error = if bounds.is_empty() {
        let mut text = String::from_str("DXGI frame-info probe requires non-empty bounds: ");
        bounds.push_debug(&mut text);
        text
    } else {
        String::from_str("DXGI frame-info probe requires Windows")
    };
    let default_output = DxgiFrameInfoProbePathReport::failed_before_start(
        DxgiFrameInfoProbePath::DefaultOutput,
        error.as_str(),
    );
    let selected_output = DxgiFrameInfoProbePathReport::failed_before_start(
        DxgiFrameInfoProbePath::SelectedOutput,
        error.as_str(),
    );
    DxgiFrameInfoProbeReport {
        attempted: false,
        ok: false,
        requested_bounds: bounds,
        default_output,
        selected_output,
        error: Some(error),
    }
}

/// The timeout of the next acquire attempt: what is left of the budget, at most
/// `attempt_timeout_ms`, and at least one millisecond.
pub open spec fn spec_attempt_timeout_ms(budget_ms: u32, elapsed_ms: u32, attempt_timeout_ms: u32) -> u32 {
    let remaining: int = if elapsed_ms >= budget_ms { 0 } else { budget_ms - elapsed_ms };
    let capped: int = if remaining <= attempt_timeout_ms { remaining } else { attempt_timeout_ms as int };
    (if capped >= 1 { capped } else { 1 }) as u32
}

pub fn probe_attempt_timeout_ms(budget_ms: u32, elapsed_ms: u32, attempt_timeout_ms: u32) -> (r: u32)
    ensures
        r == spec_attempt_timeout_ms(budget_ms, elapsed_ms, attempt_timeout_ms),
        1 <= r,
{
    let remaining = if elapsed_ms >= budget_ms { 0 } else { budget_ms - elapsed_ms };
    let capped = if remaining <= attempt_timeout_ms { remaining } else { attempt_timeout_ms };
    if capped >= 1 { capped } else { 1 }
}

/// The attempt recorded when there is no duplication session to acquire from.
pub fn session_unavailable_attempt(attempt: u32, timeout_ms: u32, elapsed_budget_ms: u32) -> (r:
    DxgiFrameInfoProbeAttempt)
    ensures
        r.attempt == attempt && r.timeout_ms == timeout_ms && r.elapsed_budget_ms == elapsed_budget_ms,
        !r.ok && !r.timed_out && !r.access_lost && !r.released_frame,
        r.hresult_hex is None && r.frame_info is None,
        r.error matches Some(text) && text@ == "DXGI duplication session is unavailable"@,
{
    DxgiFrameInfoProbeAttempt {
        attempt,
        timeout_ms,
        elapsed_budget_ms,
        ok: false,
        timed_out: false,
        access_lost: false,
        hresult_hex: None,
        error: Some(String::from_str("DXGI duplication session is unavailable")),
        frame_info: None,
        released_frame: false,
    }
}

/// The attempt recorded when a frame was acquired: it succeeds only if the frame was
/// released again; otherwise it carries `release_failure`.
pub fn acquired_frame_attempt(
    attempt: u32,
    timeout_ms: u32,
    elapsed_budget_ms: u32,
    frame_info: DxgiOutduplFrameInfoDiagnostics,
    released_frame: bool,
    release_failure: &str,
) -> (r: DxgiFrameInfoProbeAttempt)
    ensures
        r.attempt == attempt && r.timeout_ms == timeout_ms && r.elapsed_budget_ms == elapsed_budget_ms,
        r.ok == released_frame && r.released_frame == released_frame,
        !r.timed_out && !r.access_lost && r.hresult_hex is None,
        r.frame_info == Some(frame_info),
        released_frame ==> r.error is None,
        !released_frame ==> (r.error matches Some(text) && text@ == release_failure@),
{
    DxgiFrameInfoProbeAttempt {
        attempt,
        timeout_ms,
        elapsed_budget_ms,
        ok: released_frame,
        timed_out: false,
        access_lost: false,
        hresult_hex: None,
        error: if released_frame {
            None
        } else {
            Some(release_failure.to_owned())
        },
        frame_info: Some(frame_info),
        released_frame,
    }
}

/// The attempt recorded when acquiring failed with `error_text`: it timed out when the
/// text names `DXGI_ERROR_WAIT_TIMEOUT` (0x887A0027) or a time-out, lost access when it
/// names `DXGI_ERROR_ACCESS_LOST` or lost access, and keeps the HRESULT it names.
pub fn failed_acquire_attempt(
    attempt: u32,
    timeout_ms: u32,
    elapsed_budget_ms: u32,
    error_text: String,
) -> (r: DxgiFrameInfoProbeAttempt)
    ensures
        r.attempt == attempt && r.timeout_ms == timeout_ms && r.elapsed_budget_ms == elapsed_budget_ms,
        !r.ok && !r.released_frame && r.frame_info is None,
        r.timed_out == (contains_text(error_text@, "0x887A0027"@) || contains_text(
            error_text@,
            "timed out"@,
        )),
        r.access_lost == (contains_text(error_text@, "DXGI_ERROR_ACCESS_LOST"@) || contains_text(
            error_text@,
            "access was lost"@,
        )),
        match first_hresult_token(error_text@) {
            Some(token) => r.hresult_hex matches Some(hex) && hex@ == token,
            None => r.hresult_hex is None,
        },
        r.error matches Some(text) && text@ == error_text@,
{
    let chars = str_chars(error_text.as_str());
    let timed_out = chars_contain(&chars, "0x887A0027") || chars_contain(&chars, "timed out");
    let access_lost = chars_contain(&chars, "DXGI_ERROR_ACCESS_LOST") || chars_contain(
        &chars,
        "access was lost",
    );
    let hresult_hex = extract_hresult_hex(error_text.as_str());
    DxgiFrameInfoProbeAttempt {
        attempt,
        timeout_ms,
        elapsed_budget_ms,
        ok: false,
        timed_out,
        access_lost,
        hresult_hex,
        error: Some(error_text),
        frame_info: None,
        released_frame: false,
    }
}

/// Whether a character is Unicode `White_Space`, as `char::is_whitespace` decides.
pub open spec fn is_unicode_whitespace(c: char) -> bool {
    let u = c as u32;
    ||| 9 <= u <= 13
    ||| u == 32
    ||| u == 0x85
    ||| u == 0xA0
    ||| u == 0x1680
    ||| 0x2000 <= u <= 0x200A
    ||| u == 0x2028
    ||| u == 0x2029
    ||| u == 0x202F
    ||| u == 0x205F
    ||| u == 0x3000
}

fn is_unicode_whitespace_exec(c: char) -> (r: bool)
    ensures
        r == is_unicode_whitespace(c),
{
    let u = c as u32;
    (9 <= u && u <= 13) || u == 32 || u == 0x85 || u == 0xA0 || u == 0x1680 || (0x2000 <= u && u
        <= 0x200A) || u == 0x2028 || u == 0x2029 || u == 0x202F || u == 0x205F || u == 0x3000
}

/// Error texts are split into words at parentheses and white space.
pub open spec fn is_token_separator(c: char) -> bool {
    c == '(' || c == ')' || is_unicode_whitespace(c)
}

fn is_token_separator_exec(c: char) -> (r: bool)
    ensures
        r == is_token_separator(c),
{
    c == '(' || c == ')' || is_unicode_whitespace_exec(c)
}

/// The number of bytes UTF-8 uses for `c`.
pub open spec fn utf8_width(c: char) -> nat {
    let u = c as u32;
    if u < 0x80 {
        1
    } else if u < 0x800 {
        2
    } else if u < 0x10000 {
        3
    } else {
        4
    }
}

/// The number of bytes UTF-8 uses for `s`.
pub open spec fn utf8_len(s: Seq<char>) -> nat
    decreases s.len(),
{
    if s.len() == 0 {
        0
    } else {
        utf8_len(s.drop_last()) + utf8_width(s.last())
    }
}

/// The length of the word that `s` starts with.
pub open spec fn token_len(s: Seq<char>) -> nat
    decreases s.len(),
{
    if s.len() == 0 || is_token_separator(s[0]) {
        0
    } else {
        1 + token_len(s.drop_first())
    }
}

/// A word that names an HRESULT: `0x` followed by at least eight more bytes.
pub open spec fn is_hresult_token(t: Seq<char>) -> bool {
    t.len() >= 2 && t[0] == '0' && t[1] == 'x' && utf8_len(t) >= 10
}

/// The first word of `s` that names an HRESULT.
pub open spec fn first_hresult_token(s: Seq<char>) -> Option<Seq<char>>
    decreases s.len(),
{
    let n = token_len(s);
    if n <= s.len() && is_hresult_token(s.subrange(0, n as int)) {
        Some(s.subrange(0, n as int))
    } else if n < s.len() {
        first_hresult_token(s.subrange((n + 1) as int, s.len() as int))
    } else {
        None
    }
}

proof fn lemma_token_len(s: Seq<char>, k: nat)
    requires
        k <= s.len(),
        forall|i: int| 0 <= i < k ==> !is_token_separator(#[trigger] s[i]),
        k == s.len() || is_token_separator(s[k as int]),
    ensures
        token_len(s) == k,
    decreases k,
{
    if k > 0 {
        let rest = s.drop_first();
        assert forall|i: int| 0 <= i < k - 1 implies !is_token_separator(#[trigger] rest[i]) by {
            assert(rest[i] == s[i + 1]);
        }
        if k < s.len() {
            assert(rest[k - 1] == s[k as int]);
        }
        lemma_token_len(rest, (k - 1) as nat);
    }
}

proof fn lemma_utf8_len_prefix(s: Seq<char>, k: int)
    requires
        0 <= k < s.len(),
    ensures
        utf8_len(s.subrange(0, k + 1)) == utf8_len(s.subrange(0, k)) + utf8_width(s[k]),
{
    assert(s.subrange(0, k + 1).drop_last() =~= s.subrange(0, k));
}

proof fn lemma_utf8_len_monotone(s: Seq<char>, k: int)
    requires
        0 <= k <= s.len(),
    ensures
        utf8_len(s.subrange(0, k)) <= utf8_len(s),
    decreases s.len() - k,
{
    if k < s.len() {
        lemma_utf8_len_prefix(s, k);
        lemma_utf8_len_monotone(s, k + 1);
    } else {
        assert(s.subrange(0, k) =~= s);
    }
}

/// Whether the UTF-8 length of `chars[start..end]` is at least ten bytes.
fn utf8_len_at_least_ten(chars: &Vec<char>, start: usize, end: usize) -> (r: bool)
    requires
        start <= end <= chars@.len(),
    ensures
        r == (utf8_len(chars@.subrange(start as int, end as int)) >= 10),
{
    let ghost t = chars@.subrange(start as int, end as int);
    let mut k: usize = start;
    let mut acc: usize = 0;
    while k < end && acc < 10
        invariant
            start <= k <= end <= chars@.len(),
            t == chars@.subrange(start as int, end as int),
            acc == utf8_len(t.subrange(0, k - start)),
            acc < 14,
        decreases end - k,
    {
        proof {
            lemma_utf8_len_prefix(t, k - start);
            assert(t[k - start] == chars@[k as int]);
        }
        let u = chars[k] as u32;
        let width: usize = if u < 0x80 {
            1
        } else if u < 0x800 {
            2
        } else if u < 0x10000 {
            3
        } else {
            4
        };
        acc = acc + width;
        k = k + 1;
    }
    proof {
        lemma_utf8_len_monotone(t, k - start);
        if k == end {
            assert(t.subrange(0, k - start) =~= t);
        }
    }
    acc >= 10
}

fn first_hresult_token_from(chars: &Vec<char>, start: usize) -> (r: Option<(usize, usize)>)
    requires
        start <= chars@.len(),
    ensures
        match first_hresult_token(chars@.subrange(start as int, chars@.len() as int)) {
            Some(t) => r matches Some((a, b)) && a <= b <= chars@.len() && chars@.subrange(
                a as int,
                b as int,
            ) == t,
            None => r is None,
        },
    decreases chars@.len() - start,
{
    let n = chars.len();
    let ghost s = chars@.subrange(start as int, n as int);
    let mut j: usize = start;
    while j < n && !is_token_separator_exec(chars[j])
        invariant
            n == chars@.len(),
            start <= j <= n,
            forall|i: int| start <= i < j ==> !is_token_separator(#[trigger] chars@[i]),
        decreases n - j,
    {
        j = j + 1;
    }
    proof {
        assert forall|i: int| 0 <= i < j - start implies !is_token_separator(#[trigger] s[i]) by {
            assert(s[i] == chars@[start + i]);
        }
        if j < n {
            assert(s[j - start] == chars@[j as int]);
        }
        lemma_token_len(s, (j - start) as nat);
        assert(s.subrange(0, j - start) =~= chars@.subrange(start as int, j as int));
    }
    let is_token = j - start >= 2 && chars[start] == '0' && chars[start + 1] == 'x'
        && utf8_len_at_least_ten(chars, start, j);
    proof {
        if j - start >= 2 {
            assert(s.subrange(0, j - start)[0] == chars@[start as int]);
            assert(s.subrange(0, j - start)[1] == chars@[start + 1]);
        }
    }
    if is_token {
        return Some((start, j));
    }
    if j < n {
        proof {
            assert(s.subrange(j - start + 1, s.len() as int) =~= chars@.subrange(j + 1, n as int));
        }
        first_hresult_token_from(chars, j + 1)
    } else {
        None
    }
}

/// The first word of an error text that names an HRESULT, such as `0x887A0027`.
pub fn extract_hresult_hex(error: &str) -> (r: Option<String>)
    ensures
        match first_hresult_token(error@) {
            Some(token) => r matches Some(hex) && hex@ == token,
            None => r is None,
        },
{
    let chars = str_chars(error);
    proof {
        assert(chars@.subrange(0, chars@.len() as int) =~= error@);
    }
    match first_hresult_token_from(&chars, 0) {
        Some((a, b)) => Some(error.substring_char(a, b).to_owned()),
        None => None,
    }
}

/// The next acquire attempt of a probe path that spent `elapsed_budget_ms` of its budget
/// on `attempts_made` attempts, none of which acquired a frame: its number and timeout,
/// or none once the budget is spent. An attempt never runs past the budget.
pub fn frame_info_next_attempt(elapsed_budget_ms: u32, attempts_made: u32) -> (r: Option<(u32, u32)>)
    requires
        attempts_made < u32::MAX,
    ensures
        elapsed_budget_ms >= FRAME_INFO_PROBE_BUDGET_MS ==> r is None,
        elapsed_budget_ms < FRAME_INFO_PROBE_BUDGET_MS ==> r == Some(
            (
                (attempts_made + 1) as u32,
                spec_attempt_timeout_ms(
                    FRAME_INFO_PROBE_BUDGET_MS,
                    elapsed_budget_ms,
                    FRAME_INFO_ATTEMPT_TIMEOUT_MS,
                ),
            ),
        ),
        r matches Some((_, timeout)) ==> elapsed_budget_ms + timeout <= FRAME_INFO_PROBE_BUDGET_MS,
{
    if elapsed_budget_ms >= FRAME_INFO_PROBE_BUDGET_MS {
        return None;
    }
    let timeout = probe_attempt_timeout_ms(
        FRAME_INFO_PROBE_BUDGET_MS,
        elapsed_budget_ms,
        FRAME_INFO_ATTEMPT_TIMEOUT_MS,
    );
    Some((attempts_made + 1, timeout))
}

/// The report of a probe path whose duplication did not start; what the backend knew of
/// the output is kept.
pub fn frame_info_path_start_failed(
    path: DxgiFrameInfoProbePath,
    output_bounds: Option<MonitorCaptureBounds>,
    output_identity: Option<(u32, u32)>,
    output_ranking: Option<DxgiOutputRankingEvidence>,
    error: String,
) -> (r: DxgiFrameInfoProbePathReport)
    ensures
        r.path == path && r.attempted && !r.ok && !r.stopped,
        r.output_bounds == output_bounds && r.output_ranking == output_ranking,
        (r.adapter_index, r.output_index) == identity_indices(output_identity),
        r.attempts@.len() == 0,
        r.error == Some(error),
{
    let (adapter_index, output_index) = match output_identity {
        Some((adapter, index)) => (Some(adapter), Some(index)),
        None => (None, None),
    };
    DxgiFrameInfoProbePathReport {
        path,
        attempted: true,
        ok: false,
        output_bounds,
        adapter_index,
        output_index,
        output_ranking,
        attempts: Vec::new(),
        stopped: false,
        error: Some(error),
    }
}

/// Some attempt acquired a frame.
pub open spec fn some_attempt_ok(attempts: Seq<DxgiFrameInfoProbeAttempt>) -> bool {
    exists|i: int| 0 <= i < attempts.len() && (#[trigger] attempts[i]).ok
}

/// The report of a probe path that ran its attempts and then stopped the duplication: it
/// succeeded when some attempt acquired a frame and the duplication stopped.
pub fn finish_frame_info_path(
    path: DxgiFrameInfoProbePath,
    output_bounds: Option<MonitorCaptureBounds>,
    output_identity: Option<(u32, u32)>,
    output_ranking: Option<DxgiOutputRankingEvidence>,
    attempts: Vec<DxgiFrameInfoProbeAttempt>,
    stopped: bool,
) -> (r: DxgiFrameInfoProbePathReport)
    ensures
        r.path == path && r.attempted && r.stopped == stopped,
        r.output_bounds == output_bounds && r.output_ranking == output_ranking,
        (r.adapter_index, r.output_index) == identity_indices(output_identity),
        r.attempts@ == attempts@,
        r.ok == (some_attempt_ok(attempts@) && stopped),
        r.ok ==> r.error is None,
        !r.ok ==> (r.error matches Some(text) && text@
            == "DXGI frame-info probe did not acquire a frame within 500 ms"@),
{
    let mut any_ok = false;
    let mut i: usize = 0;
    while i < attempts.len()
        invariant
            i <= attempts@.len(),
            any_ok == exists|k: int| 0 <= k < i && (#[trigger] attempts@[k]).ok,
        decreases attempts@.len() - i,
    {
        if attempts[i].ok {
            any_ok = true;
        }
        i = i + 1;
    }
    let ok = any_ok && stopped;
    let (adapter_index, output_index) = match output_identity {
        Some((adapter, index)) => (Some(adapter), Some(index)),
        None => (None, None),
    };
    DxgiFrameInfoProbePathReport {
        path,
        attempted: true,
        ok,
        output_bounds,
        adapter_index,
        output_index,
        output_ranking,
        attempts,
        stopped,
        error: if ok {
            None
        } else {
            Some(String::from_str("DXGI frame-info probe did not acquire a frame within 500 ms"))
        },
    }
}

} // verus!
