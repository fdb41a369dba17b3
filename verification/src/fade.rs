//! Indicator fade wave.
//!
//! The built-in indicator is faded by driving its pulse width up and down in
//! a triangle wave: the width grows by a fixed step each tick until it passes
//! half the refresh period, then shrinks by the same step until it reaches
//! zero, and so on forever.  One verified step computes the next width and
//! direction; the pulse driver and the tick timer are collaborators.

use vstd::prelude::*;

verus! {

/// Pulse refresh period of the driver, in microseconds.
pub const REFRESH_INTERVAL: u64 = 20000;

/// Pulse width the wave turns around at: half the refresh period.
pub const FADE_CEILING: i16 = 10000;

/// How much the pulse width changes per tick, in microseconds.
pub const FADE_STEP: i16 = 10;

/// Delay between ticks, in milliseconds.
pub const TICK_DELAY_MS: u64 = 1;

/// The states the wave moves through: the width is a multiple of the step
/// between zero and one step past the ceiling, the direction is one step up
/// or down, and at either end the wave is about to turn around.
pub open spec fn fade_inv(duration: int, step: int) -> bool {
    &&& (step == FADE_STEP as int || step == -(FADE_STEP as int))
    &&& 0 <= duration <= FADE_CEILING as int + FADE_STEP as int
    &&& duration % (FADE_STEP as int) == 0
    &&& (duration == 0 ==> step == -(FADE_STEP as int))
    &&& (duration == FADE_CEILING as int + FADE_STEP as int ==> step == FADE_STEP as int)
}

/// The next `(width, direction)` of the wave: the direction flips when the
/// width sits at zero or past the ceiling, then the width moves one step.
pub open spec fn fade_next(duration: int, step: int) -> (int, int) {
    let turned: int = if duration == 0 || duration > FADE_CEILING as int {
        -step
    } else {
        step
    };
    (duration + turned, turned)
}

/// The wave's first state: one step wide, growing.
pub fn fade_init() -> (state: (i16, i16))
    ensures
        state.0 == FADE_STEP,
        state.1 == FADE_STEP,
        fade_inv(state.0 as int, state.1 as int),
{
    (FADE_STEP, FADE_STEP)
}

/// One tick of the wave.  The returned width is what the pulse driver is
/// given next; it is never negative and never more than one step past the
/// ceiling.
pub fn fade_step(duration: i16, step: i16) -> (next: (i16, i16))
    requires
        fade_inv(duration as int, step as int),
    ensures
        (next.0 as int, next.1 as int) == fade_next(duration as int, step as int),
        fade_inv(next.0 as int, next.1 as int),
        0 <= next.0,
{
    let turned: i16 = if duration == 0 || duration > FADE_CEILING {
        -step
    } else {
        step
    };
    (duration + turned, turned)
}

} // verus!
