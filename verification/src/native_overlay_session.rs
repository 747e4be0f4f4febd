//! The CPU-frame native overlay session: its store, its state changes and its diagnostics.
//!
//! The overlay window lives on a thread of its own, which the caller runs; this module
//! decides what each command, reply and timeout does to the session that the store holds.
use vstd::prelude::*;

use crate::capture::MonitorCaptureBounds;
use crate::numeric::{clamp_i32, saturating_add_i32, saturating_sub_i32};
use crate::overlay_renderer::OverlayRenderReceipt;

verus! {

/// How long the caller waits for the overlay thread to report its first frame.
pub const OVERLAY_THREAD_START_TIMEOUT_MS: u64 = 500;

/// How long the caller waits for the overlay thread to answer a command.
pub const OVERLAY_THREAD_COMMAND_TIMEOUT_MS: u64 = 500;

/// How long an overlay thread stays up without a command before it tears itself down.
pub const OVERLAY_THREAD_IDLE_TIMEOUT_MS: u64 = 5_000;

/// How often the hover candidate under the cursor is looked up again.
pub const OVERLAY_CANDIDATE_REFRESH_MS: u64 = 16;

/// The pixel path a native overlay session draws with.
#[derive(Debug, Clone, Copy, PartialEq, Eq, Structural)]
pub enum NativeOverlaySessionRuntime {
    CpuRgbaWin32,
}

impl NativeOverlaySessionRuntime {
    pub open spec fn spec_as_str(self) -> Seq<char> {
        match self {
            NativeOverlaySessionRuntime::CpuRgbaWin32 => "cpu-rgba-win32"@,
        }
    }

    pub fn as_str(self) -> (r: &'static str)
        ensures
            r@ == self.spec_as_str(),
    {
        match self {
            NativeOverlaySessionRuntime::CpuRgbaWin32 => "cpu-rgba-win32",
        }
    }
}

/// Where a native overlay session stands.
#[derive(Debug, Clone, Copy, PartialEq, Eq, Structural)]
pub enum NativeOverlaySessionState {
    Empty,
    Created,
    Rendered,
    Visible,
    Cancelled,
    Failed,
}

impl NativeOverlaySessionState {
    pub open spec fn spec_as_str(self) -> Seq<char> {
        match self {
            NativeOverlaySessionState::Empty => "empty"@,
            NativeOverlaySessionState::Created => "created"@,
            NativeOverlaySessionState::Rendered => "rendered"@,
            NativeOverlaySessionState::Visible => "visible"@,
            NativeOverlaySessionState::Cancelled => "cancelled"@,
            NativeOverlaySessionState::Failed => "failed"@,
        }
    }

    /// The overlay window is still up: created, rendered or visible.
    pub open spec fn spec_is_active(self) -> bool {
        self is Created || self is Rendered || self is Visible
    }

    pub fn as_str(self) -> (r: &'static str)
        ensures
            r@ == self.spec_as_str(),
    {
        match self {
            NativeOverlaySessionState::Empty => "empty",
            NativeOverlaySessionState::Created => "created",
            NativeOverlaySessionState::Rendered => "rendered",
            NativeOverlaySessionState::Visible => "visible",
            NativeOverlaySessionState::Cancelled => "cancelled",
            NativeOverlaySessionState::Failed => "failed",
        }
    }

    pub fn is_active(self) -> (r: bool)
        ensures
            r == self.spec_is_active(),
    {
        match self {
            NativeOverlaySessionState::Created | NativeOverlaySessionState::Rendered
            | NativeOverlaySessionState::Visible => true,
            _ => false,
        }
    }
}

/// Why a native overlay session could not start.
#[derive(Debug, Clone, PartialEq, Eq)]
pub enum NativeOverlaySessionError {
    InvalidBounds,
    OverlayCreate(String),
    OverlayRender(String),
    OverlayShow(String),
    StorePoisoned(String),
}

impl NativeOverlaySessionError {
    pub open spec fn spec_message(&self) -> Seq<char> {
        match self {
            NativeOverlaySessionError::InvalidBounds => "native overlay session bounds are empty"@,
            NativeOverlaySessionError::OverlayCreate(e) => "native overlay create failed: "@ + e@,
            NativeOverlaySessionError::OverlayRender(e) => "native overlay render failed: "@ + e@,
            NativeOverlaySessionError::OverlayShow(e) => "native overlay show failed: "@ + e@,
            NativeOverlaySessionError::StorePoisoned(e) => "native overlay store poisoned: "@ + e@,
        }
    }

    pub fn to_string(&self) -> (r: String)
        ensures
            r@ == self.spec_message(),
    {
        let mut s = String::new();
        match self {
            NativeOverlaySessionError::InvalidBounds => {
                s.append("native overlay session bounds are empty");
            },
            NativeOverlaySessionError::OverlayCreate(e) => {
                s.append("native overlay create failed: ");
                s.append(e.as_str());
            },
            NativeOverlaySessionError::OverlayRender(e) => {
                s.append("native overlay render failed: ");
                s.append(e.as_str());
            },
            NativeOverlaySessionError::OverlayShow(e) => {
                s.append("native overlay show failed: ");
                s.append(e.as_str());
            },
            NativeOverlaySessionError::StorePoisoned(e) => {
                s.append("native overlay store poisoned: ");
                s.append(e.as_str());
            },
        }
        proof {
            assert(s@ =~= self.spec_message());
        }
        s
    }
}

/// A selection rectangle in overlay-window coordinates (edges, right and bottom exclusive).
#[derive(Debug, Clone, Copy, PartialEq, Eq, Structural)]
pub struct Win32OverlaySelectionRect {
    pub left: i32,
    pub top: i32,
    pub right: i32,
    pub bottom: i32,
}

/// A window rectangle in virtual-desktop coordinates, as Win32 reports it.
#[derive(Debug, Clone, Copy, PartialEq, Eq, Structural)]
pub struct Win32Rect {
    pub left: i32,
    pub top: i32,
    pub right: i32,
    pub bottom: i32,
}

/// How far the overlay window's own pointer input has got.
#[derive(Debug, Clone, Copy, PartialEq, Eq, Structural)]
pub enum Win32OverlayNativeInputPhase {
    Idle,
    Started,
    Selecting,
    Completed,
    Cancelled,
}

/// What the overlay window's input handler has seen so far.
#[derive(Debug, Clone, Copy, PartialEq, Eq, Structural)]
pub struct Win32OverlayNativeInputSnapshot {
    pub native_input_started: bool,
    pub mouse_captured: bool,
    pub completed: bool,
    pub cancelled: bool,
    pub phase: Win32OverlayNativeInputPhase,
    pub event_seq: u64,
    pub selection: Option<Win32OverlaySelectionRect>,
}

/// The native selection of a live session, for the caller that finishes the screenshot.
#[derive(Debug, Clone, Copy, PartialEq, Eq, Structural)]
pub struct NativeOverlaySelectionSnapshot {
    pub hwnd: isize,
    pub bounds: MonitorCaptureBounds,
    pub selection: Option<Win32OverlaySelectionRect>,
    pub input_started: bool,
    pub mouse_captured: bool,
    pub completed: bool,
    pub cancelled: bool,
    pub phase: Win32OverlayNativeInputPhase,
    pub event_seq: u64,
}

/// What the store reports about the current session.
#[derive(Debug, Clone, PartialEq, Eq)]
pub struct NativeOverlaySessionDiagnostics {
    pub active: bool,
    pub session_id: Option<String>,
    pub generation: Option<u64>,
    pub runtime: Option<NativeOverlaySessionRuntime>,
    pub state: NativeOverlaySessionState,
    pub hwnd: Option<isize>,
    pub bounds: Option<MonitorCaptureBounds>,
    pub rendered: bool,
    pub visible: bool,
    pub fallback_reason: Option<String>,
}

/// The text of an optional string.
pub open spec fn opt_text(value: Option<String>) -> Option<Seq<char>> {
    match value {
        Some(s) => Some(s@),
        None => None,
    }
}

fn clone_opt_text(value: &Option<String>) -> (r: Option<String>)
    ensures
        opt_text(r) == opt_text(*value),
{
    match value {
        Some(s) => Some(s.clone()),
        None => None,
    }
}

impl NativeOverlaySessionDiagnostics {
    /// The diagnostics report no session, in `state`, for `reason`.
    pub open spec fn spec_is_without_session(
        self,
        state: NativeOverlaySessionState,
        reason: Option<Seq<char>>,
    ) -> bool {
        &&& !self.active
        &&& self.session_id is None
        &&& self.generation is None
        &&& self.runtime is None
        &&& self.state == state
        &&& self.hwnd is None
        &&& self.bounds is None
        &&& !self.rendered
        &&& !self.visible
        &&& opt_text(self.fallback_reason) == reason
    }

    pub open spec fn spec_is_empty(self) -> bool {
        self.spec_is_without_session(NativeOverlaySessionState::Empty, None)
    }

    /// The report given when the session store itself cannot be read.
    pub open spec fn spec_is_store_lock_failure(self) -> bool {
        self.spec_is_without_session(
            NativeOverlaySessionState::Failed,
            Some("native overlay session store lock failed"@),
        )
    }

    pub fn empty() -> (r: Self)
        ensures
            r.spec_is_empty(),
    {
        Self {
            active: false,
            session_id: None,
            generation: None,
            runtime: None,
            state: NativeOverlaySessionState::Empty,
            hwnd: None,
            bounds: None,
            rendered: false,
            visible: false,
            fallback_reason: None,
        }
    }

    pub fn store_lock_failed() -> (r: Self)
        ensures
            r.spec_is_store_lock_failure(),
    {
        let mut reason = String::new();
        reason.append("native overlay session store lock failed");
        Self {
            active: false,
            session_id: None,
            generation: None,
            runtime: None,
            state: NativeOverlaySessionState::Failed,
            hwnd: None,
            bounds: None,
            rendered: false,
            visible: false,
            fallback_reason: Some(reason),
        }
    }
}

/// What the overlay thread reports once its window is up.
#[derive(Debug, Clone, Copy, PartialEq, Eq, Structural)]
pub struct NativeOverlayThreadStarted {
    pub hwnd: isize,
    pub render_receipt: Option<OverlayRenderReceipt>,
}

/// A session that owns an overlay window on its own thread.
#[derive(Debug)]
pub struct CpuNativeOverlaySession {
    pub session_id: String,
    pub generation: u64,
    pub bounds: MonitorCaptureBounds,
    pub hwnd: isize,
    pub render_receipt: Option<OverlayRenderReceipt>,
    pub state: NativeOverlaySessionState,
    pub fallback_reason: Option<String>,
}

impl CpuNativeOverlaySession {
    /// `d` reports this session.
    pub open spec fn reported_by(&self, d: NativeOverlaySessionDiagnostics) -> bool {
        &&& d.active == self.state.spec_is_active()
        &&& opt_text(d.session_id) == Some(self.session_id@)
        &&& d.generation == Some(self.generation)
        &&& d.runtime == Some(NativeOverlaySessionRuntime::CpuRgbaWin32)
        &&& d.state == self.state
        &&& d.hwnd == Some(self.hwnd)
        &&& d.bounds == Some(self.bounds)
        &&& d.rendered == self.render_receipt is Some
        &&& d.visible == self.state is Visible
        &&& opt_text(d.fallback_reason) == opt_text(self.fallback_reason)
    }

    pub fn diagnostics(&self) -> (r: NativeOverlaySessionDiagnostics)
        ensures
            self.reported_by(r),
    {
        NativeOverlaySessionDiagnostics {
            active: self.state.is_active(),
            session_id: Some(self.session_id.clone()),
            generation: Some(self.generation),
            runtime: Some(NativeOverlaySessionRuntime::CpuRgbaWin32),
            state: self.state,
            hwnd: Some(self.hwnd),
            bounds: Some(self.bounds),
            rendered: self.render_receipt.is_some(),
            visible: match self.state {
                NativeOverlaySessionState::Visible => true,
                _ => false,
            },
            fallback_reason: clone_opt_text(&self.fallback_reason),
        }
    }
}


/// The one native overlay session the process keeps, if any.
#[derive(Debug)]
pub struct NativeOverlaySessionStore {
    pub session: Option<CpuNativeOverlaySession>,
}

impl NativeOverlaySessionStore {
    pub fn new() -> (r: Self)
        ensures
            r.session is None,
    {
        Self { session: None }
    }
}

/// Where and how large the overlay window of a session is created.
#[derive(Debug, Clone, Copy, PartialEq, Eq, Structural)]
pub struct NativeOverlayWindowPlan {
    pub x: i32,
    pub y: i32,
    pub width: i32,
    pub height: i32,
}

/// The window that covers `bounds`, unless the bounds are empty or too large for Win32.
pub open spec fn spec_window_plan(bounds: MonitorCaptureBounds) -> Option<NativeOverlayWindowPlan> {
    if bounds.spec_is_empty() || bounds.width > i32::MAX || bounds.height > i32::MAX {
        None
    } else {
        Some(
            NativeOverlayWindowPlan {
                x: bounds.origin_x,
                y: bounds.origin_y,
                width: bounds.width as i32,
                height: bounds.height as i32,
            },
        )
    }
}

pub fn plan_cpu_native_overlay_window(bounds: MonitorCaptureBounds) -> (r: Result<
    NativeOverlayWindowPlan,
    NativeOverlaySessionError,
>)
    ensures
        match spec_window_plan(bounds) {
            Some(plan) => r == Ok::<NativeOverlayWindowPlan, NativeOverlaySessionError>(plan),
            None => r == Err::<NativeOverlayWindowPlan, NativeOverlaySessionError>(
                NativeOverlaySessionError::InvalidBounds,
            ),
        },
{
    if bounds.is_empty() || bounds.width > i32::MAX as u32 || bounds.height > i32::MAX as u32 {
        return Err(NativeOverlaySessionError::InvalidBounds);
    }
    Ok(
        NativeOverlayWindowPlan {
            x: bounds.origin_x,
            y: bounds.origin_y,
            width: bounds.width as i32,
            height: bounds.height as i32,
        },
    )
}

/// The session that a successful start records.
pub open spec fn spec_started_session(
    session_id: String,
    generation: u64,
    bounds: MonitorCaptureBounds,
    started: NativeOverlayThreadStarted,
) -> CpuNativeOverlaySession {
    CpuNativeOverlaySession {
        session_id,
        generation,
        bounds,
        hwnd: started.hwnd,
        render_receipt: started.render_receipt,
        state: NativeOverlaySessionState::Visible,
        fallback_reason: None,
    }
}

/// Records the session whose overlay thread reported `started`.
///
/// Empty bounds, or bounds too large for a window, are refused before anything else;
/// a thread that could not bring its window up leaves the store as it was.
pub fn begin_cpu_native_overlay_session(
    store: &mut NativeOverlaySessionStore,
    session_id: String,
    generation: u64,
    bounds: MonitorCaptureBounds,
    started: Result<NativeOverlayThreadStarted, String>,
) -> (r: Result<NativeOverlaySessionDiagnostics, NativeOverlaySessionError>)
    ensures
        spec_window_plan(bounds) is None ==> r == Err::<
            NativeOverlaySessionDiagnostics,
            NativeOverlaySessionError,
        >(NativeOverlaySessionError::InvalidBounds) && *final(store) == *old(store),
        spec_window_plan(bounds) is Some ==> match started {
            Err(e) => r == Err::<NativeOverlaySessionDiagnostics, NativeOverlaySessionError>(
                NativeOverlaySessionError::OverlayCreate(e),
            ) && *final(store) == *old(store),
            Ok(s) => {
                let session = spec_started_session(session_id, generation, bounds, s);
                &&& final(store).session == Some(session)
                &&& r matches Ok(d) && session.reported_by(d)
            },
        },
{
    match plan_cpu_native_overlay_window(bounds) {
        Err(e) => {
            return Err(e);
        },
        Ok(_) => {},
    }
    match started {
        Err(e) => Err(NativeOverlaySessionError::OverlayCreate(e)),
        Ok(s) => {
            let session = CpuNativeOverlaySession {
                session_id,
                generation,
                bounds,
                hwnd: s.hwnd,
                render_receipt: s.render_receipt,
                state: NativeOverlaySessionState::Visible,
                fallback_reason: None,
            };
            let diagnostics = session.diagnostics();
            store.session = Some(session);
            Ok(diagnostics)
        },
    }
}

fn text_matches(a: &String, b: &str) -> (r: bool)
    ensures
        r == (a@ == b@),
{
    let owned = b.to_owned();
    a.eq(&owned)
}

/// The session's id is the one asked for, or none was asked for.
pub open spec fn spec_id_matches(session: CpuNativeOverlaySession, expected: Option<&str>) -> bool {
    match expected {
        Some(id) => session.session_id@ == id@,
        None => true,
    }
}

fn id_matches(session: &CpuNativeOverlaySession, expected: Option<&str>) -> (r: bool)
    ensures
        r == spec_id_matches(*session, expected),
{
    match expected {
        Some(id) => text_matches(&session.session_id, id),
        None => true,
    }
}

/// What a raise request does first: answer at once, or ask the overlay thread.
#[derive(Debug, Clone, PartialEq, Eq)]
pub enum NativeOverlayRaiseStep {
    Reply(NativeOverlaySessionDiagnostics),
    SendRaise(String),
}

/// With no session the answer is the empty report; with a session whose window is gone
/// it is that session's report; with a live window the thread of that session is asked.
pub fn native_overlay_raise_step(store: &NativeOverlaySessionStore) -> (r: NativeOverlayRaiseStep)
    ensures
        match (store.session, r) {
            (None, NativeOverlayRaiseStep::Reply(d)) => d.spec_is_empty(),
            (Some(s), NativeOverlayRaiseStep::Reply(d)) => !s.state.spec_is_active()
                && s.reported_by(d),
            (Some(s), NativeOverlayRaiseStep::SendRaise(id)) => s.state.spec_is_active() && id@
                == s.session_id@,
            (None, NativeOverlayRaiseStep::SendRaise(_)) => false,
        },
{
    match &store.session {
        None => NativeOverlayRaiseStep::Reply(NativeOverlaySessionDiagnostics::empty()),
        Some(session) => {
            if session.state.is_active() {
                NativeOverlayRaiseStep::SendRaise(session.session_id.clone())
            } else {
                NativeOverlayRaiseStep::Reply(session.diagnostics())
            }
        },
    }
}

/// The session after its thread answered a raise request.
pub open spec fn spec_after_raise(
    session: CpuNativeOverlaySession,
    command_result: Result<(), String>,
) -> CpuNativeOverlaySession {
    match command_result {
        Ok(_) => CpuNativeOverlaySession {
            state: NativeOverlaySessionState::Visible,
            fallback_reason: None,
            ..session
        },
        Err(e) => CpuNativeOverlaySession {
            state: NativeOverlaySessionState::Failed,
            fallback_reason: Some(e),
            ..session
        },
    }
}

/// Applies the thread's answer to a raise request to the session it was sent to.
///
/// A store that meanwhile holds no session, or another one, is left alone and the
/// empty report is returned.
pub fn raise_cpu_native_overlay_session(
    store: &mut NativeOverlaySessionStore,
    session_id: &str,
    command_result: Result<(), String>,
) -> (r: NativeOverlaySessionDiagnostics)
    ensures
        match old(store).session {
            Some(s) => if s.session_id@ == session_id@ {
                &&& final(store).session == Some(spec_after_raise(s, command_result))
                &&& spec_after_raise(s, command_result).reported_by(r)
            } else {
                *final(store) == *old(store) && r.spec_is_empty()
            },
            None => *final(store) == *old(store) && r.spec_is_empty(),
        },
{
    let taken = store.session.take();
    match taken {
        None => NativeOverlaySessionDiagnostics::empty(),
        Some(session) => {
            if !text_matches(&session.session_id, session_id) {
                store.session = Some(session);
                return NativeOverlaySessionDiagnostics::empty();
            }
            let mut session = session;
            match command_result {
                Ok(_) => {
                    session.state = NativeOverlaySessionState::Visible;
                    session.fallback_reason = None;
                },
                Err(e) => {
                    session.state = NativeOverlaySessionState::Failed;
                    session.fallback_reason = Some(e);
                },
            }
            let diagnostics = session.diagnostics();
            store.session = Some(session);
            diagnostics
        },
    }
}

/// Takes the session out of the store for cancelling when its id is the one asked for
/// (any id, when none is asked for); otherwise the store is left alone and nothing is
/// to be cancelled.
pub fn cancel_cpu_native_overlay_session_if_matches(
    store: &mut NativeOverlaySessionStore,
    expected: Option<&str>,
) -> (r: Option<CpuNativeOverlaySession>)
    ensures
        match old(store).session {
            None => r is None && *final(store) == *old(store),
            Some(s) => if spec_id_matches(s, expected) {
                r == Some(s) && final(store).session is None
            } else {
                r is None && *final(store) == *old(store)
            },
        },
{
    let taken = store.session.take();
    match taken {
        None => None,
        Some(session) => {
            if id_matches(&session, expected) {
                Some(session)
            } else {
                store.session = Some(session);
                None
            }
        },
    }
}

/// The session after its thread answered a cancel request.
pub open spec fn spec_after_cancel(
    session: CpuNativeOverlaySession,
    reason: String,
    command_result: Result<(), String>,
) -> CpuNativeOverlaySession {
    match command_result {
        Ok(_) => CpuNativeOverlaySession {
            state: NativeOverlaySessionState::Cancelled,
            fallback_reason: Some(reason),
            ..session
        },
        Err(e) => CpuNativeOverlaySession {
            state: NativeOverlaySessionState::Failed,
            fallback_reason: Some(e),
            ..session
        },
    }
}

/// The final report of a session taken out of the store, once its thread answered
/// the cancel request: cancelled for `reason`, or failed with the thread's error.
pub fn cancel_cpu_native_overlay_session(
    session: CpuNativeOverlaySession,
    reason: String,
    command_result: Result<(), String>,
) -> (r: NativeOverlaySessionDiagnostics)
    ensures
        spec_after_cancel(session, reason, command_result).reported_by(r),
{
    let mut session = session;
    match command_result {
        Ok(_) => {
            session.state = NativeOverlaySessionState::Cancelled;
            session.fallback_reason = Some(reason);
        },
        Err(e) => {
            session.state = NativeOverlaySessionState::Failed;
            session.fallback_reason = Some(e);
        },
    }
    session.diagnostics()
}

/// The report of the stored session, or the empty report.
pub fn cpu_native_overlay_session_diagnostics(store: &NativeOverlaySessionStore) -> (r:
    NativeOverlaySessionDiagnostics)
    ensures
        match store.session {
            Some(s) => s.reported_by(r),
            None => r.spec_is_empty(),
        },
{
    match &store.session {
        Some(session) => session.diagnostics(),
        None => NativeOverlaySessionDiagnostics::empty(),
    }
}

/// Takes a stored session of another run generation out of the store for cancelling;
/// a session of this generation, or none, leaves the store alone.
pub fn cleanup_stale_cpu_native_overlay_session(
    store: &mut NativeOverlaySessionStore,
    generation: u64,
) -> (r: Option<CpuNativeOverlaySession>)
    ensures
        match old(store).session {
            Some(s) => if s.generation != generation {
                r == Some(s) && final(store).session is None
            } else {
                r is None && *final(store) == *old(store)
            },
            None => r is None && *final(store) == *old(store),
        },
{
    let taken = store.session.take();
    match taken {
        Some(session) => {
            if session.generation != generation {
                Some(session)
            } else {
                store.session = Some(session);
                None
            }
        },
        None => None,
    }
}

/// The stored session whose window may carry a native selection: its id is the one
/// asked for and its window is still up.
pub open spec fn spec_selection_session(
    store: NativeOverlaySessionStore,
    expected: Option<&str>,
) -> Option<CpuNativeOverlaySession> {
    match store.session {
        Some(s) => if spec_id_matches(s, expected) && s.state.spec_is_active() {
            Some(s)
        } else {
            None
        },
        None => None,
    }
}

/// The window whose input handler is to be asked for a native selection.
pub fn active_cpu_native_overlay_hwnd(store: &NativeOverlaySessionStore, expected: Option<&str>) -> (r:
    Option<isize>)
    ensures
        r == match spec_selection_session(*store, expected) {
            Some(s) => Some(s.hwnd),
            None => None,
        },
{
    match &store.session {
        Some(session) => {
            if id_matches(session, expected) && session.state.is_active() {
                Some(session.hwnd)
            } else {
                None
            }
        },
        None => None,
    }
}

/// The native selection of the live session, once its window's own input has started.
pub fn cpu_native_overlay_selection_snapshot(
    store: &NativeOverlaySessionStore,
    expected: Option<&str>,
    input: Option<Win32OverlayNativeInputSnapshot>,
) -> (r: Option<NativeOverlaySelectionSnapshot>)
    ensures
        r == match (spec_selection_session(*store, expected), input) {
            (Some(s), Some(i)) => if i.native_input_started {
                Some(
                    NativeOverlaySelectionSnapshot {
                        hwnd: s.hwnd,
                        bounds: s.bounds,
                        selection: i.selection,
                        input_started: true,
                        mouse_captured: i.mouse_captured,
                        completed: i.completed,
                        cancelled: i.cancelled,
                        phase: i.phase,
                        event_seq: i.event_seq,
                    },
                )
            } else {
                None
            },
            _ => None,
        },
{
    let hwnd = match active_cpu_native_overlay_hwnd(store, expected) {
        Some(hwnd) => hwnd,
        None => {
            return None;
        },
    };
    let bounds = match &store.session {
        Some(session) => session.bounds,
        None => {
            return None;
        },
    };
    let input = match input {
        Some(input) => input,
        None => {
            return None;
        },
    };
    if !input.native_input_started {
        return None;
    }
    Some(
        NativeOverlaySelectionSnapshot {
            hwnd,
            bounds,
            selection: input.selection,
            input_started: input.native_input_started,
            mouse_captured: input.mouse_captured,
            completed: input.completed,
            cancelled: input.cancelled,
            phase: input.phase,
            event_seq: input.event_seq,
        },
    )
}


/// `extent` capped at `i32::MAX`.
pub open spec fn spec_capped_extent(extent: u32) -> int {
    if extent <= i32::MAX {
        extent as int
    } else {
        i32::MAX as int
    }
}

fn capped_extent(extent: u32) -> (r: i32)
    ensures
        r == spec_capped_extent(extent),
{
    if extent <= i32::MAX as u32 {
        extent as i32
    } else {
        i32::MAX
    }
}

/// The part of a desktop window rectangle that lies on the monitor, in overlay
/// coordinates, unless it is narrower or shorter than `min_size`. Edges that would leave
/// the `i32` range saturate.
pub open spec fn spec_rect_to_overlay_candidate(
    rect: Win32Rect,
    bounds: MonitorCaptureBounds,
    min_size: i32,
) -> Option<Win32OverlaySelectionRect> {
    let bounds_right = clamp_i32(bounds.origin_x + spec_capped_extent(bounds.width));
    let bounds_bottom = clamp_i32(bounds.origin_y + spec_capped_extent(bounds.height));
    let left: int = if rect.left >= bounds.origin_x { rect.left as int } else { bounds.origin_x as int };
    let top: int = if rect.top >= bounds.origin_y { rect.top as int } else { bounds.origin_y as int };
    let right: int = if rect.right <= bounds_right { rect.right as int } else { bounds_right };
    let bottom: int = if rect.bottom <= bounds_bottom { rect.bottom as int } else { bounds_bottom };
    if clamp_i32(right - left) < min_size || clamp_i32(bottom - top) < min_size {
        None
    } else {
        Some(
            Win32OverlaySelectionRect {
                left: clamp_i32(left - bounds.origin_x) as i32,
                top: clamp_i32(top - bounds.origin_y) as i32,
                right: clamp_i32(right - bounds.origin_x) as i32,
                bottom: clamp_i32(bottom - bounds.origin_y) as i32,
            },
        )
    }
}

pub fn rect_to_overlay_candidate(rect: Win32Rect, bounds: MonitorCaptureBounds, min_size: i32) -> (r:
    Option<Win32OverlaySelectionRect>)
    ensures
        r == spec_rect_to_overlay_candidate(rect, bounds, min_size),
{
    let bounds_right = saturating_add_i32(bounds.origin_x, capped_extent(bounds.width));
    let bounds_bottom = saturating_add_i32(bounds.origin_y, capped_extent(bounds.height));
    let left = if rect.left >= bounds.origin_x { rect.left } else { bounds.origin_x };
    let top = if rect.top >= bounds.origin_y { rect.top } else { bounds.origin_y };
    let right = if rect.right <= bounds_right { rect.right } else { bounds_right };
    let bottom = if rect.bottom <= bounds_bottom { rect.bottom } else { bounds_bottom };
    if saturating_sub_i32(right, left) < min_size || saturating_sub_i32(bottom, top) < min_size {
        return None;
    }
    Some(
        Win32OverlaySelectionRect {
            left: saturating_sub_i32(left, bounds.origin_x),
            top: saturating_sub_i32(top, bounds.origin_y),
            right: saturating_sub_i32(right, bounds.origin_x),
            bottom: saturating_sub_i32(bottom, bounds.origin_y),
        },
    )
}

/// The candidate used when no window under the cursor qualifies: the whole monitor.
pub fn full_monitor_candidate_rect(bounds: MonitorCaptureBounds) -> (r: Win32OverlaySelectionRect)
    ensures
        r.left == 0 && r.top == 0,
        r.right == spec_capped_extent(bounds.width),
        r.bottom == spec_capped_extent(bounds.height),
{
    Win32OverlaySelectionRect {
        left: 0,
        top: 0,
        right: capped_extent(bounds.width),
        bottom: capped_extent(bounds.height),
    }
}

/// A desktop selection `(x, y, width, height)` moved into the coordinates of the overlay
/// window that covers `bounds`.
pub fn overlay_selection_from_desktop(
    x: i32,
    y: i32,
    width: i32,
    height: i32,
    bounds: MonitorCaptureBounds,
) -> (r: Win32OverlaySelectionRect)
    requires
        i32::MIN <= x - bounds.origin_x <= i32::MAX,
        i32::MIN <= y - bounds.origin_y <= i32::MAX,
        i32::MIN <= x - bounds.origin_x + width <= i32::MAX,
        i32::MIN <= y - bounds.origin_y + height <= i32::MAX,
    ensures
        r.left == x - bounds.origin_x,
        r.top == y - bounds.origin_y,
        r.right == x - bounds.origin_x + width,
        r.bottom == y - bounds.origin_y + height,
{
    let left = x - bounds.origin_x;
    let top = y - bounds.origin_y;
    Win32OverlaySelectionRect { left, top, right: left + width, bottom: top + height }
}

/// What reached the overlay thread while it waited for a command.
#[derive(Debug, Clone, Copy, PartialEq, Eq, Structural)]
pub enum NativeOverlayThreadEvent {
    Raise,
    Cancel,
    /// No command came; `elapsed_ms` have passed since the window came up.
    Idle { elapsed_ms: u64 },
    Disconnected,
}

/// What the overlay thread does about an event.
#[derive(Debug, Clone, Copy, PartialEq, Eq, Structural)]
pub enum NativeOverlayThreadAction {
    /// Show the window again, answer the caller, keep running.
    ShowAndReply,
    /// Destroy the window, answer the caller, stop.
    DestroyReplyAndExit,
    /// Keep pumping.
    KeepRunning,
    /// Destroy the window and stop without an answer.
    DestroyAndExit,
}

pub fn native_overlay_thread_action(event: NativeOverlayThreadEvent) -> (r: NativeOverlayThreadAction)
    ensures
        r == match event {
            NativeOverlayThreadEvent::Raise => NativeOverlayThreadAction::ShowAndReply,
            NativeOverlayThreadEvent::Cancel => NativeOverlayThreadAction::DestroyReplyAndExit,
            NativeOverlayThreadEvent::Idle { elapsed_ms } => if elapsed_ms
                > OVERLAY_THREAD_IDLE_TIMEOUT_MS {
                NativeOverlayThreadAction::DestroyAndExit
            } else {
                NativeOverlayThreadAction::KeepRunning
            },
            NativeOverlayThreadEvent::Disconnected => NativeOverlayThreadAction::DestroyAndExit,
        },
{
    match event {
        NativeOverlayThreadEvent::Raise => NativeOverlayThreadAction::ShowAndReply,
        NativeOverlayThreadEvent::Cancel => NativeOverlayThreadAction::DestroyReplyAndExit,
        NativeOverlayThreadEvent::Idle { elapsed_ms } => {
            if elapsed_ms > OVERLAY_THREAD_IDLE_TIMEOUT_MS {
                NativeOverlayThreadAction::DestroyAndExit
            } else {
                NativeOverlayThreadAction::KeepRunning
            }
        },
        NativeOverlayThreadEvent::Disconnected => NativeOverlayThreadAction::DestroyAndExit,
    }
}

/// What happens to the hover candidate on one turn of the overlay thread.
#[derive(Debug, Clone, Copy, PartialEq, Eq, Structural)]
pub enum NativeOverlayCandidateStep {
    /// The window's own input took over: remove the candidate.
    Clear,
    /// Look the candidate up again under the cursor.
    Lookup,
    /// Leave it as it is.
    Keep,
}

/// Once the window's own input has started, a shown candidate is removed and none is
/// looked up; before that the candidate is looked up on the first turn and then every
/// `OVERLAY_CANDIDATE_REFRESH_MS` milliseconds.
pub fn native_overlay_candidate_step(
    native_input_started: bool,
    has_candidate: bool,
    since_refresh_ms: Option<u64>,
) -> (r: NativeOverlayCandidateStep)
    ensures
        r == if native_input_started {
            if has_candidate {
                NativeOverlayCandidateStep::Clear
            } else {
                NativeOverlayCandidateStep::Keep
            }
        } else {
            match since_refresh_ms {
                None => NativeOverlayCandidateStep::Lookup,
                Some(ms) => if ms >= OVERLAY_CANDIDATE_REFRESH_MS {
                    NativeOverlayCandidateStep::Lookup
                } else {
                    NativeOverlayCandidateStep::Keep
                },
            }
        },
{
    if native_input_started {
        if has_candidate {
            NativeOverlayCandidateStep::Clear
        } else {
            NativeOverlayCandidateStep::Keep
        }
    } else {
        match since_refresh_ms {
            None => NativeOverlayCandidateStep::Lookup,
            Some(ms) => {
                if ms >= OVERLAY_CANDIDATE_REFRESH_MS {
                    NativeOverlayCandidateStep::Lookup
                } else {
                    NativeOverlayCandidateStep::Keep
                }
            },
        }
    }
}

/// The answer the overlay thread sends when a command failed: the request's reason,
/// what failed, and the window's error.
pub fn overlay_command_failure_text(reason: &str, action: &str, error: &str) -> (r: String)
    ensures
        r@ == reason@ + "; "@ + action@ + " failed: "@ + error@,
{
    let mut s = String::new();
    s.append(reason);
    s.append("; ");
    s.append(action);
    s.append(" failed: ");
    s.append(error);
    proof {
        assert(s@ =~= reason@ + "; "@ + action@ + " failed: "@ + error@);
    }
    s
}

/// A session whose overlay thread answered a raise stays offered for native selection
/// when the raise succeeded, and is withdrawn from it when the raise failed.
pub proof fn raise_outcome_decides_selection_window(
    session: CpuNativeOverlaySession,
    error: String,
    expected: Option<&str>,
)
    requires
        spec_id_matches(session, expected),
    ensures
        spec_selection_session(
            NativeOverlaySessionStore { session: Some(spec_after_raise(session, Ok(()))) },
            expected,
        ) == Some(spec_after_raise(session, Ok(()))),
        spec_selection_session(
            NativeOverlaySessionStore { session: Some(spec_after_raise(session, Err(error))) },
            expected,
        ) is None,
{
}

/// Whatever the overlay thread answers to a cancel request, the session it reports is
/// no longer active, and the store it was taken from offers no window.
pub proof fn cancelled_sessions_are_never_active(
    session: CpuNativeOverlaySession,
    reason: String,
    command_result: Result<(), String>,
    expected: Option<&str>,
)
    ensures
        !spec_after_cancel(session, reason, command_result).state.spec_is_active(),
        spec_selection_session(NativeOverlaySessionStore { session: None }, expected) is None,
{
}

} // verus!
