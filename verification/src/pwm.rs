//! Pseudo-PWM on a binary GPIO pin: continuous power is emulated by keeping
//! the pin high for a share of a fixed cycle (70% power is 7 s on, 3 s off in
//! a 10 s cycle).
use vstd::prelude::*;

verus! {

/// Duty-cycle period in milliseconds.
pub const CYCLE_DURATION_MS: u128 = 10_000;

/// Whether the pin is high `elapsed_ms` after the start, when it is to be
/// high for the first `threshold_ms` of each cycle.
pub open spec fn pwm_high(elapsed_ms: u128, threshold_ms: u128) -> bool {
    elapsed_ms % CYCLE_DURATION_MS < threshold_ms
}

/// One update of a pseudo-PWM pin: the level it must have now, and whether
/// it must be written (the level differs from `current`).
pub fn pwm_step(current: bool, elapsed_ms: u128, threshold_ms: u128) -> (r: (bool, bool))
    ensures
        r.0 == pwm_high(elapsed_ms, threshold_ms),
        r.1 == (r.0 != current),
{
    let position = elapsed_ms % CYCLE_DURATION_MS;
    let high = position < threshold_ms;
    (high, high != current)
}

/// Whether a binary pin at `current` must be written to reach `on`.
pub fn needs_write(current: bool, on: bool) -> (r: bool)
    ensures
        r == (on != current),
{
    on != current
}

/// In every cycle the pin is high exactly during the first `threshold_ms`
/// milliseconds: at position `p` of cycle `k` it is high iff
/// `p < threshold_ms`. Zero power is never high, full power always.
pub proof fn law_duty_cycle(k: u128, p: u128, threshold_ms: u128)
    requires
        p < CYCLE_DURATION_MS,
        k * CYCLE_DURATION_MS + p <= u128::MAX,
    ensures
        pwm_high((k * CYCLE_DURATION_MS + p) as u128, threshold_ms) == (p < threshold_ms),
        !pwm_high((k * CYCLE_DURATION_MS + p) as u128, 0),
        pwm_high((k * CYCLE_DURATION_MS + p) as u128, CYCLE_DURATION_MS),
{
    let t = (k * CYCLE_DURATION_MS + p) as u128;
    assert((k as int * 10_000 + p as int) % 10_000 == p as int) by (nonlinear_arith)
        requires
            0 <= p < 10_000,
            k >= 0,
    {
        vstd::arithmetic::div_mod::lemma_fundamental_div_mod_converse(
            k as int * 10_000 + p as int,
            10_000,
            k as int,
            p as int,
        );
    }
    assert(t % CYCLE_DURATION_MS == p);
}

} // verus!
