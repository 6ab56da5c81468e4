use audio_visualizer::animation::{AnimationState, PHASE_INCREMENT, REDRAW_INTERVAL_MS};

#[test]
fn fresh_state_starts_at_zero() {
    let st = AnimationState::new(1000);
    assert_eq!(st.phase, 0);
    assert_eq!(st.last_update_ms, 1000);
}

#[test]
fn redraw_after_interval_advances_phase() {
    let mut st = AnimationState::new(0);
    let advanced = st.on_redraw(REDRAW_INTERVAL_MS);
    assert!(advanced);
    assert_eq!(st.phase, PHASE_INCREMENT);
    assert_eq!(st.last_update_ms, REDRAW_INTERVAL_MS);
}

#[test]
fn early_redraw_changes_nothing() {
    let mut st = AnimationState::new(100);
    let advanced = st.on_redraw(100 + REDRAW_INTERVAL_MS - 1);
    assert!(!advanced);
    assert_eq!(st.phase, 0);
    assert_eq!(st.last_update_ms, 100);
}

#[test]
fn phase_strictly_increases_across_spaced_redraws() {
    let mut st = AnimationState::new(0);
    let mut now: u64 = 0;
    let mut previous = st.phase;
    for _ in 0..5 {
        now += REDRAW_INTERVAL_MS;
        let advanced = st.on_redraw(now);
        assert!(advanced);
        assert!(st.phase > previous);
        previous = st.phase;
    }
}

#[test]
fn gate_measures_from_last_accepted_redraw() {
    let mut st = AnimationState::new(0);
    assert!(st.on_redraw(20));
    // 15ms after the accepted redraw at 20: skipped.
    assert!(!st.on_redraw(35));
    // 16ms after the accepted redraw at 20: accepted.
    assert!(st.on_redraw(36));
    assert_eq!(st.phase, 2 * PHASE_INCREMENT);
}
