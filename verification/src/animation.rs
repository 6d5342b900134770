//! The animation scalar: a horizontal offset that climbs by a fixed step each
//! frame and falls back to its lower bound once it has passed the upper one.

use vstd::arithmetic::div_mod::{
    lemma_fundamental_div_mod, lemma_fundamental_div_mod_converse_mod, lemma_small_mod,
};
use vstd::prelude::*;

verus! {

/// Lower bound of the offset: -0.5.
pub const OFFSET_MIN: i32 = -5_000;

/// Upper bound of the offset: 0.5.
pub const OFFSET_MAX: i32 = 5_000;

/// Increment applied once per frame: 0.0002.
pub const OFFSET_STEP: i32 = 2;

/// Number of steps that take the offset from its lower to its upper bound.
pub const STEPS_PER_SWEEP: u32 = 5_000;

/// An offset inside the closed range the animation sweeps.
pub open spec fn in_range(t: int) -> bool {
    OFFSET_MIN <= t <= OFFSET_MAX
}

/// The offset one frame after `t`: the incremented value, unless that value
/// exceeds the upper bound, in which case the lower bound.
pub open spec fn next_offset(t: int) -> int {
    if t + OFFSET_STEP > OFFSET_MAX {
        OFFSET_MIN as int
    } else {
        t + OFFSET_STEP
    }
}

/// The offset `n` frames after `t`.
pub open spec fn offset_after(t: int, n: nat) -> int
    decreases n,
{
    if n == 0 {
        t
    } else {
        next_offset(offset_after(t, (n - 1) as nat))
    }
}

/// Advances the offset by one frame.
pub fn advance(t: i32) -> (r: i32)
    ensures
        r == next_offset(t as int),
        in_range(t as int) ==> in_range(r as int),
{
    if t > OFFSET_MAX - OFFSET_STEP {
        OFFSET_MIN
    } else {
        t + OFFSET_STEP
    }
}

/// A step never leaves the range: from any offset in it, the next one is in
/// it too.
pub proof fn lemma_step_stays_in_range(t: int)
    requires
        in_range(t),
    ensures
        in_range(next_offset(t)),
{
}

/// However many frames go by, an offset that starts in the range stays in it.
pub proof fn lemma_offset_stays_in_range(t: int, n: nat)
    requires
        in_range(t),
    ensures
        in_range(offset_after(t, n)),
    decreases n,
{
    if n > 0 {
        lemma_offset_stays_in_range(t, (n - 1) as nat);
    }
}

/// Stepping once and then `n` times is stepping `n + 1` times.
pub proof fn lemma_offset_after_step(t: int, n: nat)
    ensures
        offset_after(next_offset(t), n) == offset_after(t, n + 1),
    decreases n,
{
    if n > 0 {
        lemma_offset_after_step(t, (n - 1) as nat);
        assert(offset_after(t, n + 1) == next_offset(offset_after(t, n)));
    } else {
        assert(offset_after(t, 1) == next_offset(offset_after(t, 0)));
    }
}

/// From the lower bound the offset climbs by one step per frame for a whole
/// sweep, without wrapping on the way.
pub proof fn lemma_climb(n: nat)
    requires
        n <= STEPS_PER_SWEEP,
    ensures
        offset_after(OFFSET_MIN as int, n) == OFFSET_MIN + OFFSET_STEP * n,
    decreases n,
{
    if n > 0 {
        lemma_climb((n - 1) as nat);
    }
}

/// Starting at the lower bound, the offset is exactly the upper bound after
/// a sweep, and back at the lower bound one frame later.
pub proof fn lemma_sweep_then_wrap()
    ensures
        offset_after(OFFSET_MIN as int, STEPS_PER_SWEEP as nat) == OFFSET_MAX,
        offset_after(OFFSET_MIN as int, (STEPS_PER_SWEEP + 1) as nat) == OFFSET_MIN,
{
    lemma_climb(STEPS_PER_SWEEP as nat);
}

/// Starting at the lower bound, the offset repeats with a period of one sweep
/// and one frame: after `n` frames it stands where it stood after the
/// remainder of `n` by that period.
pub proof fn lemma_offset_repeats(n: nat)
    ensures
        offset_after(OFFSET_MIN as int, n) == OFFSET_MIN + OFFSET_STEP * (n % (STEPS_PER_SWEEP
            + 1) as nat),
    decreases n,
{
    let period = (STEPS_PER_SWEEP + 1) as nat;
    if n > 0 {
        lemma_offset_repeats((n - 1) as nat);
        if ((n - 1) as nat) % period == STEPS_PER_SWEEP {
            lemma_mod_add_one_wraps(n as int, period as int);
        } else {
            lemma_mod_add_one_climbs(n as int, period as int);
        }
    } else {
        lemma_small_mod(0, period);
    }
}

/// If `n - 1` leaves the largest remainder, `n` leaves none.
proof fn lemma_mod_add_one_wraps(n: int, d: int)
    requires
        d > 0,
        n > 0,
        (n - 1) % d == d - 1,
    ensures
        n % d == 0,
{
    lemma_fundamental_div_mod(n - 1, d);
    let q = (n - 1) / d;
    assert((q + 1) * d == d * q + d) by (nonlinear_arith);
    lemma_fundamental_div_mod_converse_mod(n, d, q + 1, 0);
}

/// If `n - 1` leaves less than the largest remainder, `n` leaves one more.
proof fn lemma_mod_add_one_climbs(n: int, d: int)
    requires
        d > 0,
        n > 0,
        (n - 1) % d < d - 1,
    ensures
        n % d == (n - 1) % d + 1,
{
    lemma_fundamental_div_mod(n - 1, d);
    let q = (n - 1) / d;
    assert(q * d == d * q) by (nonlinear_arith);
    lemma_fundamental_div_mod_converse_mod(n, d, q, (n - 1) % d + 1);
}

} // verus!
