use screenshot_native::session::{
    advance_run_generation, begin_run_generation, generation_state, is_stale_generation,
    next_screenshot_session_id, ScreenshotGenerationState, ScreenshotRunGeneration,
    ScreenshotSessionCounters,
};

#[test]
fn session_ids_are_monotonic_and_prefixed() {
    let mut counters = ScreenshotSessionCounters::new();

    assert_eq!(next_screenshot_session_id(&mut counters), "ss-1");
    assert_eq!(next_screenshot_session_id(&mut counters), "ss-2");
    assert_eq!(next_screenshot_session_id(&mut counters), "ss-3");
}

#[test]
fn begin_and_advance_share_generation_contract() {
    let mut counters = ScreenshotSessionCounters::new();

    let run_generation = begin_run_generation(&mut counters);
    assert_eq!(run_generation.value(), 2);
    assert_eq!(
        generation_state(&counters, run_generation),
        ScreenshotGenerationState::Current
    );
    assert!(!is_stale_generation(&counters, run_generation));
    assert_eq!(run_generation.to_string(), "2");

    let next_generation = advance_run_generation(&mut counters);
    assert_eq!(next_generation.value(), 3);
    assert_eq!(
        generation_state(&counters, run_generation),
        ScreenshotGenerationState::Stale
    );
    assert!(is_stale_generation(&counters, run_generation));
    assert_eq!(
        generation_state(&counters, next_generation),
        ScreenshotGenerationState::Current
    );
}

#[test]
fn initial_generation_is_stale_after_run_begins() {
    let mut counters = ScreenshotSessionCounters::new();

    let initial_generation = ScreenshotRunGeneration::first();
    assert_eq!(
        generation_state(&counters, initial_generation),
        ScreenshotGenerationState::Current
    );

    let run_generation = begin_run_generation(&mut counters);
    assert_eq!(
        generation_state(&counters, initial_generation),
        ScreenshotGenerationState::Stale
    );
    assert_eq!(
        generation_state(&counters, run_generation),
        ScreenshotGenerationState::Current
    );
}


