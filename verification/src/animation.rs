//! Time-gated animation phase.
//!
//! The decorative waveform is redrawn by the render loop. A redraw
//! advances the phase only when at least `REDRAW_INTERVAL_MS`
//! milliseconds have passed since the last accepted redraw; earlier
//! redraws leave the state untouched. The phase is a plain counter;
//! the renderer scales it into an angle for the curve.

use vstd::prelude::*;

verus! {

/// Milliseconds that must elapse since the last accepted redraw
/// before the phase advances again.
pub const REDRAW_INTERVAL_MS: u64 = 16;

/// How much the phase counter grows on each accepted redraw.
pub const PHASE_INCREMENT: u64 = 1;

/// Phase of the decorative waveform together with the time of the
/// last accepted redraw, both in milliseconds of the caller's clock.
#[derive(Debug, Clone, Copy, PartialEq, Eq, Structural)]
pub struct AnimationState {
    /// Counter of accepted redraws, scaled by `PHASE_INCREMENT`.
    pub phase: u64,
    /// Clock reading at the last accepted redraw.
    pub last_update_ms: u64,
}

/// Whether a redraw at time `now_ms` is far enough from the last
/// accepted one to advance the animation.
pub open spec fn redraw_due(st: AnimationState, now_ms: u64) -> bool {
    now_ms >= st.last_update_ms + REDRAW_INTERVAL_MS
}

/// The state after a redraw at time `now_ms`: phase advanced and
/// timestamp moved when the redraw is due, unchanged otherwise.
pub open spec fn step_spec(st: AnimationState, now_ms: u64) -> AnimationState {
    if redraw_due(st, now_ms) {
        AnimationState { phase: (st.phase + PHASE_INCREMENT) as u64, last_update_ms: now_ms }
    } else {
        st
    }
}

impl AnimationState {
    /// Fresh animation state at clock time `now_ms`, with the phase
    /// at zero.
    pub fn new(now_ms: u64) -> (st: AnimationState)
        ensures
            st.phase == 0,
            st.last_update_ms == now_ms,
    {
        AnimationState { phase: 0, last_update_ms: now_ms }
    }

    /// One render-loop callback at clock time `now_ms`. Advances the
    /// phase exactly when the redraw is due and reports whether it
    /// did; a redraw that comes too early changes nothing.
    pub fn on_redraw(&mut self, now_ms: u64) -> (advanced: bool)
        requires
            old(self).phase + PHASE_INCREMENT <= u64::MAX,
        ensures
            *final(self) == step_spec(*old(self), now_ms),
            advanced == redraw_due(*old(self), now_ms),
            advanced ==> final(self).phase > old(self).phase,
            !advanced ==> *final(self) == *old(self),
    {
        if now_ms >= REDRAW_INTERVAL_MS && now_ms - REDRAW_INTERVAL_MS >= self.last_update_ms {
            self.phase = self.phase + PHASE_INCREMENT;
            self.last_update_ms = now_ms;
            true
        } else {
            false
        }
    }
}

/// Law: a redraw at least `REDRAW_INTERVAL_MS` milliseconds after the
/// last accepted one strictly increases the phase, and a redraw that
/// comes earlier leaves the whole state unchanged. Stated short of
/// saturation of the phase counter.
pub proof fn phase_strictly_increases(st: AnimationState, now_ms: u64)
    requires
        st.phase + PHASE_INCREMENT <= u64::MAX,
    ensures
        redraw_due(st, now_ms) ==> step_spec(st, now_ms).phase > st.phase,
        !redraw_due(st, now_ms) ==> step_spec(st, now_ms) == st,
{
}

/// Law: across two successive redraws that are each due, the phase
/// strictly increases at each step.
pub proof fn phase_increases_across_redraws(st: AnimationState, t1: u64, t2: u64)
    requires
        st.phase + 2 * PHASE_INCREMENT <= u64::MAX,
        redraw_due(st, t1),
        redraw_due(step_spec(st, t1), t2),
    ensures
        step_spec(step_spec(st, t1), t2).phase > step_spec(st, t1).phase,
        step_spec(st, t1).phase > st.phase,
{
}

} // verus!
