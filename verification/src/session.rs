//! Screenshot session ids and run generations.
//!
//! The counters are a value that the caller owns (one per process), so that every id and
//! generation is a function of the counters it was drawn from.
use vstd::prelude::*;

use crate::text::{decimal, push_u64};

verus! {

/// The generation of one screenshot run; later runs make earlier generations stale.
#[derive(Debug, Clone, Copy, PartialEq, Eq, Structural)]
pub struct ScreenshotRunGeneration(u64);

impl ScreenshotRunGeneration {
    pub closed spec fn spec_value(self) -> u64 {
        self.0
    }

    /// The generation that counters start at.
    pub fn first() -> (r: Self)
        ensures
            r.spec_value() == 1,
    {
        ScreenshotRunGeneration(1)
    }

    pub fn value(self) -> (r: u64)
        ensures
            r == self.spec_value(),
    {
        self.0
    }

    /// The decimal text of the generation.
    pub fn to_string(self) -> (r: String)
        ensures
            r@ == decimal(self.spec_value() as nat),
    {
        let mut s = String::new();
        push_u64(&mut s, self.0);
        proof {
            assert(s@ =~= decimal(self.spec_value() as nat));
        }
        s
    }
}

/// Whether a generation is still the latest.
#[derive(Debug, Clone, Copy, PartialEq, Eq, Structural)]
pub enum ScreenshotGenerationState {
    Current,
    Stale,
}

impl ScreenshotGenerationState {
    pub fn is_stale(self) -> (r: bool)
        ensures
            r == (self is Stale),
    {
        match self {
            ScreenshotGenerationState::Stale => true,
            ScreenshotGenerationState::Current => false,
        }
    }
}

/// The next session id and the latest run generation; both start at one.
#[derive(Debug, Clone, Copy, PartialEq, Eq, Structural)]
pub struct ScreenshotSessionCounters {
    pub next_session: u64,
    pub run_generation: u64,
}

impl ScreenshotSessionCounters {
    pub fn new() -> (r: Self)
        ensures
            r == (ScreenshotSessionCounters { next_session: 1, run_generation: 1 }),
    {
        Self { next_session: 1, run_generation: 1 }
    }
}

/// `v + 1`, wrapping at `u64::MAX`.
pub open spec fn wrapping_next(v: u64) -> u64 {
    if v == u64::MAX {
        0
    } else {
        (v + 1) as u64
    }
}

/// `ss-<n>` for the next session number; the counter advances by one (wrapping).
pub fn next_screenshot_session_id(counters: &mut ScreenshotSessionCounters) -> (r: String)
    ensures
        r@ == "ss-"@ + decimal(old(counters).next_session as nat),
        final(counters).next_session == wrapping_next(old(counters).next_session),
        final(counters).run_generation == old(counters).run_generation,
{
    let session_id = counters.next_session;
    counters.next_session = session_id.wrapping_add(1);
    let mut s = String::from_str("ss-");
    push_u64(&mut s, session_id);
    s
}

/// Starts a run: the same as advancing the generation.
pub fn begin_run_generation(counters: &mut ScreenshotSessionCounters) -> (r: ScreenshotRunGeneration)
    ensures
        r.spec_value() == wrapping_next(old(counters).run_generation),
        final(counters).run_generation == r.spec_value(),
        final(counters).next_session == old(counters).next_session,
{
    advance_run_generation(counters)
}

/// Makes a new generation the latest and returns it.
pub fn advance_run_generation(counters: &mut ScreenshotSessionCounters) -> (r: ScreenshotRunGeneration)
    ensures
        r.spec_value() == wrapping_next(old(counters).run_generation),
        final(counters).run_generation == r.spec_value(),
        final(counters).next_session == old(counters).next_session,
{
    let generation = counters.run_generation.wrapping_add(1);
    counters.run_generation = generation;
    ScreenshotRunGeneration(generation)
}

/// Current exactly when the generation is the latest one.
pub fn generation_state(counters: &ScreenshotSessionCounters, generation: ScreenshotRunGeneration) -> (r:
    ScreenshotGenerationState)
    ensures
        r is Current <==> counters.run_generation == generation.spec_value(),
{
    if counters.run_generation == generation.value() {
        ScreenshotGenerationState::Current
    } else {
        ScreenshotGenerationState::Stale
    }
}

pub fn is_stale_generation(counters: &ScreenshotSessionCounters, generation: ScreenshotRunGeneration) -> (r:
    bool)
    ensures
        r == (counters.run_generation != generation.spec_value()),
{
    generation_state(counters, generation).is_stale()
}

/// Advancing the generation makes every earlier generation stale and the new one current
/// (short of wrapping the whole counter around).
pub proof fn advancing_makes_previous_generation_stale(
    before: ScreenshotSessionCounters,
    after: ScreenshotSessionCounters,
    previous: ScreenshotRunGeneration,
)
    requires
        after.run_generation == wrapping_next(before.run_generation),
        previous.spec_value() <= before.run_generation,
        before.run_generation < u64::MAX,
    ensures
        after.run_generation != previous.spec_value(),
        after.run_generation > before.run_generation,
{
}

} // verus!
