//! The DXGI pulse-before-acquire probe: flash a pulse on the output, then try to acquire
//! the frame it caused.
use vstd::prelude::*;

use crate::capture::MonitorCaptureBounds;
use crate::dxgi_frame_info_probe::{
    probe_attempt_timeout_ms, some_attempt_ok, spec_attempt_timeout_ms, spec_empty_bounds_error,
    DxgiFrameInfoProbeAttempt, DxgiFrameInfoProbePath,
};
use crate::dxgi_output::DxgiOutputRankingEvidence;
use crate::dxgi_smoke::identity_indices;
use crate::text::{decimal, push_u64, str_chars};
use crate::win32_desktop_update_pulse::{DesktopUpdatePulseReport, DesktopUpdatePulseRequest};

verus! {

/// The total time a probe path may spend acquiring after its pulse.
pub const PULSE_ACQUIRE_BUDGET_MS: u32 = 1_000;

/// The longest single acquire attempt after a pulse.
pub const PULSE_ATTEMPT_TIMEOUT_MS: u32 = 100;

/// What one probe path did.
#[derive(Debug, Clone, PartialEq)]
pub struct DxgiPulseBeforeAcquirePathReport {
    pub path: DxgiFrameInfoProbePath,
    pub attempted: bool,
    pub ok: bool,
    pub output_bounds: Option<MonitorCaptureBounds>,
    pub adapter_index: Option<u32>,
    pub output_index: Option<u32>,
    pub output_ranking: Option<DxgiOutputRankingEvidence>,
    pub pulse: Option<DesktopUpdatePulseReport>,
    pub attempts: Vec<DxgiFrameInfoProbeAttempt>,
    pub acquire: Option<DxgiFrameInfoProbeAttempt>,
    pub stopped: bool,
    pub error: Option<String>,
}

impl DxgiPulseBeforeAcquirePathReport {
    /// The path stopped before duplication was started, for `error`.
    pub open spec fn spec_failed_before_start(self, path: DxgiFrameInfoProbePath, error: Seq<char>) -> bool {
        &&& self.path == path
        &&& !self.attempted && !self.ok && !self.stopped
        &&& self.output_bounds is None && self.adapter_index is None && self.output_index is None
        &&& self.output_ranking is None && self.pulse is None && self.acquire is None
        &&& self.attempts@.len() == 0
        &&& self.error matches Some(text) && text@ == error
    }

    pub fn failed_before_start(path: DxgiFrameInfoProbePath, error: &str) -> (r: Self)
        ensures
            r.spec_failed_before_start(path, error@),
    {
        Self {
            path,
            attempted: false,
            ok: false,
            output_bounds: None,
            adapter_index: None,
            output_index: None,
            output_ranking: None,
            pulse: None,
            attempts: Vec::new(),
            acquire: None,
            stopped: false,
            error: Some(error.to_owned()),
        }
    }
}

/// What the probe did on both paths, with the pulse it was asked for.
#[derive(Debug, Clone, PartialEq)]
pub struct DxgiPulseBeforeAcquireProbeReport {
    pub attempted: bool,
    pub ok: bool,
    pub requested_bounds: MonitorCaptureBounds,
    pub pulse_size_px: u32,
    pub pulse_alpha: u8,
    pub dwell_ms: u64,
    pub default_output: DxgiPulseBeforeAcquirePathReport,
    pub selected_output: DxgiPulseBeforeAcquirePathReport,
    pub error: Option<String>,
}

/// Probes frame delivery after a pulse, on the default output and on the selection's
/// output. Empty bounds are refused before anything is started; past that, this build
/// has no DXGI, so neither path is attempted and both name the platform.
pub fn run_dxgi_pulse_before_acquire_probe(
    bounds: MonitorCaptureBounds,
    pulse_size_px: u32,
    pulse_alpha: u8,
    dwell_ms: u64,
) -> (r: DxgiPulseBeforeAcquireProbeReport)
    ensures
        !r.attempted && !r.ok,
        r.requested_bounds == bounds,
        r.pulse_size_px == pulse_size_px && r.pulse_alpha == pulse_alpha && r.dwell_ms == dwell_ms,
        r.error matches Some(text) && text@ == (if bounds.spec_is_empty() {
            spec_empty_bounds_error("DXGI pulse-before-acquire probe requires non-empty bounds: "@, bounds)
        } else {
            "DXGI pulse-before-acquire probe requires Windows"@
        }),
        r.default_output.spec_failed_before_start(DxgiFrameInfoProbePath::DefaultOutput, r.error->0@),
        r.selected_output.spec_failed_before_start(DxgiFrameInfoProbePath::SelectedOutput, r.error->0@),
{
    let error = if bounds.is_empty() {
        let mut text = String::from_str("DXGI pulse-before-acquire probe requires non-empty bounds: ");
        bounds.push_debug(&mut text);
        text
    } else {
        String::from_str("DXGI pulse-before-acquire probe requires Windows")
    };
    let default_output = DxgiPulseBeforeAcquirePathReport::failed_before_start(
        DxgiFrameInfoProbePath::DefaultOutput,
        error.as_str(),
    );
    let selected_output = DxgiPulseBeforeAcquirePathReport::failed_before_start(
        DxgiFrameInfoProbePath::SelectedOutput,
        error.as_str(),
    );
    DxgiPulseBeforeAcquireProbeReport {
        attempted: false,
        ok: false,
        requested_bounds: bounds,
        pulse_size_px,
        pulse_alpha,
        dwell_ms,
        default_output,
        selected_output,
        error: Some(error),
    }
}

/// After a pulse, acquiring stops at the first frame or as soon as access is lost.
pub fn pulse_attempt_should_stop(attempt: &DxgiFrameInfoProbeAttempt) -> (r: bool)
    ensures
        r == (attempt.ok || attempt.access_lost),
{
    attempt.ok || attempt.access_lost
}

/// The error of a probe path: none when the pulse showed, a frame was acquired and
/// duplication stopped; otherwise the pulse's own error, a failed stop, lost access, or
/// a time-out across all attempts, in that order.
pub open spec fn spec_pulse_path_error(
    pulse_ok: bool,
    pulse_error: Option<Seq<char>>,
    acquired: bool,
    stopped: bool,
    any_access_lost: bool,
    attempt_count: nat,
) -> Option<Seq<char>> {
    if pulse_ok && acquired && stopped {
        None
    } else if !pulse_ok {
        pulse_error
    } else if !stopped {
        Some("DXGI pulse-before-acquire probe failed to stop duplication session"@)
    } else if any_access_lost {
        Some("DXGI pulse-before-acquire probe lost access after pulse"@)
    } else {
        Some(
            "DXGI pulse-before-acquire probe timed out after pulse across "@ + decimal(attempt_count)
                + " attempts and 1000 ms"@,
        )
    }
}

pub fn pulse_path_error(
    pulse_ok: bool,
    pulse_error: Option<String>,
    acquired: bool,
    stopped: bool,
    any_access_lost: bool,
    attempt_count: usize,
) -> (r: Option<String>)
    ensures
        match spec_pulse_path_error(
            pulse_ok,
            match pulse_error {
                Some(e) => Some(e@),
                None => None,
            },
            acquired,
            stopped,
            any_access_lost,
            attempt_count as nat,
        ) {
            Some(text) => r matches Some(e) && e@ == text,
            None => r is None,
        },
{
    if pulse_ok && acquired && stopped {
        None
    } else if !pulse_ok {
        pulse_error
    } else if !stopped {
        Some(String::from_str("DXGI pulse-before-acquire probe failed to stop duplication session"))
    } else if any_access_lost {
        Some(String::from_str("DXGI pulse-before-acquire probe lost access after pulse"))
    } else {
        let mut text = String::from_str("DXGI pulse-before-acquire probe timed out after pulse across ");
        push_u64(&mut text, attempt_count as u64);
        text.append(" attempts and 1000 ms");
        Some(text)
    }
}

/// The pulse a probe path asks for: over the output that duplication found, or over the
/// requested bounds when it found none.
pub fn pulse_path_request(
    output_bounds: Option<MonitorCaptureBounds>,
    bounds: MonitorCaptureBounds,
    pulse_size_px: u32,
    pulse_alpha: u8,
    dwell_ms: u64,
) -> (r: DesktopUpdatePulseRequest)
    ensures
        r == (DesktopUpdatePulseRequest {
            bounds: match output_bounds {
                Some(output) => output,
                None => bounds,
            },
            pulse_size_px,
            pulse_alpha,
            dwell_ms,
        }),
{
    let pulse_bounds = match output_bounds {
        Some(output) => output,
        None => bounds,
    };
    DesktopUpdatePulseRequest::new(pulse_bounds, pulse_size_px, pulse_alpha, dwell_ms)
}

/// The next acquire attempt after a pulse, for a path that spent `elapsed_budget_ms` of
/// its budget on `attempts_made` attempts, none of which stopped it: its number and
/// timeout, or none once the budget is spent. An attempt never runs past the budget.
pub fn pulse_next_attempt(elapsed_budget_ms: u32, attempts_made: u32) -> (r: Option<(u32, u32)>)
    requires
        attempts_made < u32::MAX,
    ensures
        elapsed_budget_ms >= PULSE_ACQUIRE_BUDGET_MS ==> r is None,
        elapsed_budget_ms < PULSE_ACQUIRE_BUDGET_MS ==> r == Some(
            (
                (attempts_made + 1) as u32,
                spec_attempt_timeout_ms(
                    PULSE_ACQUIRE_BUDGET_MS,
                    elapsed_budget_ms,
                    PULSE_ATTEMPT_TIMEOUT_MS,
                ),
            ),
        ),
        r matches Some((_, timeout)) ==> 1 <= timeout <= PULSE_ATTEMPT_TIMEOUT_MS
            && elapsed_budget_ms + timeout <= PULSE_ACQUIRE_BUDGET_MS,
{
    if elapsed_budget_ms >= PULSE_ACQUIRE_BUDGET_MS {
        return None;
    }
    let timeout = probe_attempt_timeout_ms(
        PULSE_ACQUIRE_BUDGET_MS,
        elapsed_budget_ms,
        PULSE_ATTEMPT_TIMEOUT_MS,
    );
    Some((attempts_made + 1, timeout))
}

/// The report of a probe path whose duplication did not start: no pulse was shown, and
/// what the backend knew of the output is kept.
pub fn pulse_path_start_failed(
    path: DxgiFrameInfoProbePath,
    output_bounds: Option<MonitorCaptureBounds>,
    output_identity: Option<(u32, u32)>,
    output_ranking: Option<DxgiOutputRankingEvidence>,
    error: String,
) -> (r: DxgiPulseBeforeAcquirePathReport)
    ensures
        r.path == path && r.attempted && !r.ok && !r.stopped,
        r.output_bounds == output_bounds && r.output_ranking == output_ranking,
        (r.adapter_index, r.output_index) == identity_indices(output_identity),
        r.pulse is None && r.acquire is None,
        r.attempts@.len() == 0,
        r.error == Some(error),
{
    let (adapter_index, output_index) = match output_identity {
        Some((adapter, index)) => (Some(adapter), Some(index)),
        None => (None, None),
    };
    DxgiPulseBeforeAcquirePathReport {
        path,
        attempted: true,
        ok: false,
        output_bounds,
        adapter_index,
        output_index,
        output_ranking,
        pulse: None,
        attempts: Vec::new(),
        acquire: None,
        stopped: false,
        error: Some(error),
    }
}

/// Some attempt found that access to the output was lost.
pub open spec fn some_attempt_lost_access(attempts: Seq<DxgiFrameInfoProbeAttempt>) -> bool {
    exists|i: int| 0 <= i < attempts.len() && (#[trigger] attempts[i]).access_lost
}

/// `attempt` is the first of `attempts` that acquired a frame.
pub open spec fn is_first_ok_attempt(
    attempts: Seq<DxgiFrameInfoProbeAttempt>,
    attempt: DxgiFrameInfoProbeAttempt,
) -> bool {
    exists|i: int|
        0 <= i < attempts.len() && #[trigger] attempts[i] == attempt && attempt.ok && forall|j: int|
            0 <= j < i ==> !(#[trigger] attempts[j]).ok
}

fn copy_attempt(attempt: &DxgiFrameInfoProbeAttempt) -> (r: DxgiFrameInfoProbeAttempt)
    ensures
        r == *attempt,
{
    DxgiFrameInfoProbeAttempt {
        attempt: attempt.attempt,
        timeout_ms: attempt.timeout_ms,
        elapsed_budget_ms: attempt.elapsed_budget_ms,
        ok: attempt.ok,
        timed_out: attempt.timed_out,
        access_lost: attempt.access_lost,
        hresult_hex: match &attempt.hresult_hex {
            Some(text) => Some(text.clone()),
            None => None,
        },
        error: match &attempt.error {
            Some(text) => Some(text.clone()),
            None => None,
        },
        frame_info: attempt.frame_info,
        released_frame: attempt.released_frame,
    }
}

/// The report of a probe path that showed its pulse, ran its attempts and then stopped
/// the duplication. The acquire is the first attempt that acquired a frame; the path
/// succeeded when the pulse showed, a frame was acquired and the duplication stopped,
/// and its error is `spec_pulse_path_error` of what happened.
pub fn finish_pulse_path(
    path: DxgiFrameInfoProbePath,
    output_bounds: Option<MonitorCaptureBounds>,
    output_identity: Option<(u32, u32)>,
    output_ranking: Option<DxgiOutputRankingEvidence>,
    pulse: DesktopUpdatePulseReport,
    attempts: Vec<DxgiFrameInfoProbeAttempt>,
    stopped: bool,
) -> (r: DxgiPulseBeforeAcquirePathReport)
    ensures
        r.path == path && r.attempted && r.stopped == stopped,
        r.output_bounds == output_bounds && r.output_ranking == output_ranking,
        (r.adapter_index, r.output_index) == identity_indices(output_identity),
        r.pulse == Some(pulse),
        r.attempts@ == attempts@,
        r.acquire is Some <==> some_attempt_ok(attempts@),
        r.acquire matches Some(attempt) ==> is_first_ok_attempt(attempts@, attempt),
        r.ok == (pulse.ok && some_attempt_ok(attempts@) && stopped),
        match spec_pulse_path_error(
            pulse.ok,
            match pulse.error {
                Some(e) => Some(e@),
                None => None,
            },
            some_attempt_ok(attempts@),
            stopped,
            some_attempt_lost_access(attempts@),
            attempts@.len(),
        ) {
            Some(text) => r.error matches Some(e) && e@ == text,
            None => r.error is None,
        },
{
    let mut acquire: Option<DxgiFrameInfoProbeAttempt> = None;
    let mut any_access_lost = false;
    let mut i: usize = 0;
    while i < attempts.len()
        invariant
            i <= attempts@.len(),
            acquire is Some <==> exists|k: int| 0 <= k < i && (#[trigger] attempts@[k]).ok,
            acquire matches Some(a) ==> is_first_ok_attempt(attempts@, a),
            any_access_lost == exists|k: int| 0 <= k < i && (#[trigger] attempts@[k]).access_lost,
        decreases attempts@.len() - i,
    {
        if acquire.is_none() && attempts[i].ok {
            let found = copy_attempt(&attempts[i]);
            proof {
                assert(attempts@[i as int] == found);
                assert forall|j: int| 0 <= j < i implies !(#[trigger] attempts@[j]).ok by {}
            }
            acquire = Some(found);
        }
        if attempts[i].access_lost {
            any_access_lost = true;
        }
        i = i + 1;
    }
    let acquired = acquire.is_some();
    let ok = pulse.ok && acquired && stopped;
    let pulse_error = match &pulse.error {
        Some(text) => Some(text.clone()),
        None => None,
    };
    let error = pulse_path_error(
        pulse.ok,
        pulse_error,
        acquired,
        stopped,
        any_access_lost,
        attempts.len(),
    );
    let (adapter_index, output_index) = match output_identity {
        Some((adapter, index)) => (Some(adapter), Some(index)),
        None => (None, None),
    };
    DxgiPulseBeforeAcquirePathReport {
        path,
        attempted: true,
        ok,
        output_bounds,
        adapter_index,
        output_index,
        output_ranking,
        pulse: Some(pulse),
        attempts,
        acquire,
        stopped,
        error,
    }
}

/// The probe report once both paths ran: the probe succeeded when either path acquired a
/// frame after its pulse.
pub fn combine_pulse_path_reports(
    bounds: MonitorCaptureBounds,
    pulse_size_px: u32,
    pulse_alpha: u8,
    dwell_ms: u64,
    default_output: DxgiPulseBeforeAcquirePathReport,
    selected_output: DxgiPulseBeforeAcquirePathReport,
) -> (r: DxgiPulseBeforeAcquireProbeReport)
    ensures
        r.attempted,
        r.ok == (default_output.ok || selected_output.ok),
        r.requested_bounds == bounds,
        r.pulse_size_px == pulse_size_px && r.pulse_alpha == pulse_alpha && r.dwell_ms == dwell_ms,
        r.default_output == default_output && r.selected_output == selected_output,
        r.ok ==> r.error is None,
        !r.ok ==> (r.error matches Some(text) && text@
            == "DXGI pulse-before-acquire probe did not acquire a frame"@),
{
    let ok = default_output.ok || selected_output.ok;
    DxgiPulseBeforeAcquireProbeReport {
        attempted: true,
        ok,
        requested_bounds: bounds,
        pulse_size_px,
        pulse_alpha,
        dwell_ms,
        default_output,
        selected_output,
        error: if ok {
            None
        } else {
            Some(String::from_str("DXGI pulse-before-acquire probe did not acquire a frame"))
        },
    }
}

/// The index of the first `0x` in `s`.
pub open spec fn first_hex_prefix(s: Seq<char>) -> Option<nat>
    decreases s.len(),
{
    if s.len() < 2 {
        None
    } else if s[0] == '0' && s[1] == 'x' {
        Some(0)
    } else {
        match first_hex_prefix(s.drop_first()) {
            Some(i) => Some(i + 1),
            None => None,
        }
    }
}

/// An ASCII hexadecimal digit, or the `x` of a `0x` prefix.
pub open spec fn is_hex_run_char(c: char) -> bool {
    ('0' <= c && c <= '9') || ('a' <= c && c <= 'f') || ('A' <= c && c <= 'F') || c == 'x'
}

/// The length of the run of hexadecimal characters that `s` starts with.
pub open spec fn hex_run_len(s: Seq<char>) -> nat
    decreases s.len(),
{
    if s.len() == 0 || !is_hex_run_char(s[0]) {
        0
    } else {
        1 + hex_run_len(s.drop_first())
    }
}

/// The HRESULT an error text names: the hexadecimal run at its first `0x`, when it is at
/// least ten characters long.
pub open spec fn spec_pulse_hresult(s: Seq<char>) -> Option<Seq<char>> {
    match first_hex_prefix(s) {
        Some(i) => {
            let run = s.subrange(i as int, (i + hex_run_len(s.subrange(i as int, s.len() as int))) as int);
            if run.len() >= 10 {
                Some(run)
            } else {
                None
            }
        },
        None => None,
    }
}

proof fn lemma_first_hex_prefix(s: Seq<char>, k: nat)
    requires
        k + 1 < s.len(),
        s[k as int] == '0' && s[(k + 1) as int] == 'x',
        forall|j: int| 0 <= j < k ==> !(#[trigger] s[j] == '0' && s[j + 1] == 'x'),
    ensures
        first_hex_prefix(s) == Some(k),
    decreases k,
{
    if k > 0 {
        let rest = s.drop_first();
        assert(!(s[0] == '0' && s[1] == 'x'));
        assert forall|j: int| 0 <= j < k - 1 implies !(#[trigger] rest[j] == '0' && rest[j + 1] == 'x') by {
            assert(rest[j] == s[j + 1] && rest[j + 1] == s[j + 2]);
            assert(!(s[j + 1] == '0' && s[j + 2] == 'x'));
        }
        assert(rest[k - 1] == s[k as int] && rest[k as int] == s[(k + 1) as int]);
        lemma_first_hex_prefix(rest, (k - 1) as nat);
    }
}

proof fn lemma_no_hex_prefix(s: Seq<char>)
    requires
        forall|j: int| 0 <= j && j + 1 < s.len() ==> !(#[trigger] s[j] == '0' && s[j + 1] == 'x'),
    ensures
        first_hex_prefix(s) is None,
    decreases s.len(),
{
    if s.len() >= 2 {
        let rest = s.drop_first();
        assert(!(s[0] == '0' && s[1] == 'x'));
        assert forall|j: int| 0 <= j && j + 1 < rest.len() implies !(#[trigger] rest[j] == '0' && rest[j
            + 1] == 'x') by {
            assert(rest[j] == s[j + 1] && rest[j + 1] == s[j + 2]);
            assert(!(s[j + 1] == '0' && s[j + 2] == 'x'));
        }
        lemma_no_hex_prefix(rest);
    }
}

proof fn lemma_hex_run_len(s: Seq<char>, k: nat)
    requires
        k <= s.len(),
        forall|i: int| 0 <= i < k ==> is_hex_run_char(#[trigger] s[i]),
        k == s.len() || !is_hex_run_char(s[k as int]),
    ensures
        hex_run_len(s) == k,
    decreases k,
{
    if k > 0 {
        let rest = s.drop_first();
        assert forall|i: int| 0 <= i < k - 1 implies is_hex_run_char(#[trigger] rest[i]) by {
            assert(rest[i] == s[i + 1]);
        }
        if k < s.len() {
            assert(rest[k - 1] == s[k as int]);
        }
        lemma_hex_run_len(rest, (k - 1) as nat);
    }
}

fn is_hex_run_char_exec(c: char) -> (r: bool)
    ensures
        r == is_hex_run_char(c),
{
    ('0' <= c && c <= '9') || ('a' <= c && c <= 'f') || ('A' <= c && c <= 'F') || c == 'x'
}

/// The HRESULT an error text names, such as `0x887A0027`: the hexadecimal run at the
/// text's first `0x`, when it is at least ten characters long.
pub fn extract_hresult_hex(error: &str) -> (r: Option<String>)
    ensures
        match spec_pulse_hresult(error@) {
            Some(hex) => r matches Some(text) && text@ == hex,
            None => r is None,
        },
{
    let chars = str_chars(error);
    let n = chars.len();
    if n < 2 {
        proof {
            lemma_no_hex_prefix(error@);
        }
        return None;
    }
    let mut i: usize = 0;
    while i < n - 1 && !(chars[i] == '0' && chars[i + 1] == 'x')
        invariant
            n == chars@.len(),
            n >= 2,
            chars@ == error@,
            i <= n - 1,
            forall|j: int| 0 <= j < i ==> !(#[trigger] chars@[j] == '0' && chars@[j + 1] == 'x'),
        decreases n - i,
    {
        i = i + 1;
    }
    if i == n - 1 {
        proof {
            assert forall|j: int| 0 <= j && j + 1 < error@.len() implies !(#[trigger] error@[j] == '0'
                && error@[j + 1] == 'x') by {
                assert(j < i);
            }
            lemma_no_hex_prefix(error@);
        }
        return None;
    }
    proof {
        lemma_first_hex_prefix(error@, i as nat);
    }
    let mut j: usize = i;
    while j < n && is_hex_run_char_exec(chars[j])
        invariant
            n == chars@.len(),
            chars@ == error@,
            i <= j <= n,
            forall|k: int| i <= k < j ==> is_hex_run_char(#[trigger] chars@[k]),
        decreases n - j,
    {
        j = j + 1;
    }
    proof {
        let tail = error@.subrange(i as int, n as int);
        assert forall|k: int| 0 <= k < j - i implies is_hex_run_char(#[trigger] tail[k]) by {
            assert(tail[k] == chars@[i + k]);
        }
        if j < n {
            assert(tail[j - i] == chars@[j as int]);
        }
        lemma_hex_run_len(tail, (j - i) as nat);
    }
    if j - i >= 10 {
        Some(error.substring_char(i, j).to_owned())
    } else {
        None
    }
}

} // verus!
