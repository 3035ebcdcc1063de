use vstd::prelude::*;

use crate::error::SimError;
use crate::fixed::{checked, mul_div, narrow, scaled_product, Fixed, SCALE};
use crate::model::{derivative, derivative_spec, AuxiliaryResults, Parameters, State};

verus! {

/// `y + h * k / d` in each pool, rounded toward zero (`d` is `2 * SCALE` for half a
/// step, `SCALE` for a whole one); the numerical error when a result is out of range.
pub open spec fn shift_spec(y: State, h: Fixed, k: State, d: int) -> Result<State, SimError> {
    match checked(y.a.raw + scaled_product(h.raw as int, k.a.raw as int, d)) {
        Err(e) => Err(e),
        Ok(a) => match checked(y.b.raw + scaled_product(h.raw as int, k.b.raw as int, d)) {
            Err(e) => Err(e),
            Ok(b) => Ok(State { a, b }),
        },
    }
}

/// `k1 + 2 k2 + 2 k3 + k4` in each pool; the numerical error when out of range.
pub open spec fn weighted_sum_spec(k1: State, k2: State, k3: State, k4: State) -> Result<State, SimError> {
    match checked(k1.a.raw + 2 * k2.a.raw + 2 * k3.a.raw + k4.a.raw) {
        Err(e) => Err(e),
        Ok(a) => match checked(k1.b.raw + 2 * k2.b.raw + 2 * k3.b.raw + k4.b.raw) {
            Err(e) => Err(e),
            Ok(b) => Ok(State { a, b }),
        },
    }
}

/// One classic Runge-Kutta step of size `h` from `s`:
/// `k1 = f(s)`, `k2 = f(s + h/2 k1)`, `k3 = f(s + h/2 k2)`, `k4 = f(s + h k3)`,
/// `s' = s + h/6 (k1 + 2 k2 + 2 k3 + k4)`. The result is `s'` with the diagnostics of
/// the last evaluation (`k4`), or the first error met.
pub open spec fn step_spec(p: Parameters, s: State, h: Fixed) -> Result<(State, AuxiliaryResults), SimError> {
    match derivative_spec(p, s) {
        Err(e) => Err(e),
        Ok(d1) => match shift_spec(s, h, d1.rates, 2 * SCALE) {
            Err(e) => Err(e),
            Ok(s2) => match derivative_spec(p, s2) {
                Err(e) => Err(e),
                Ok(d2) => match shift_spec(s, h, d2.rates, 2 * SCALE) {
                    Err(e) => Err(e),
                    Ok(s3) => match derivative_spec(p, s3) {
                        Err(e) => Err(e),
                        Ok(d3) => match shift_spec(s, h, d3.rates, SCALE as int) {
                            Err(e) => Err(e),
                            Ok(s4) => match derivative_spec(p, s4) {
                                Err(e) => Err(e),
                                Ok(d4) => match weighted_sum_spec(d1.rates, d2.rates, d3.rates, d4.rates) {
                                    Err(e) => Err(e),
                                    Ok(w) => match shift_spec(s, h, w, 6 * SCALE) {
                                        Err(e) => Err(e),
                                        Ok(next) => Ok((next, d4.aux)),
                                    },
                                },
                            },
                        },
                    },
                },
            },
        },
    }
}

/// `y + h * k / d` in each pool, as `shift_spec` states it.
fn shift(y: &State, h: Fixed, k: &State, d: u64) -> (r: Result<State, SimError>)
    requires
        d > 0,
    ensures
        r == shift_spec(*y, h, *k, d as int),
{
    let qa = mul_div(h.raw, k.a.raw, d);
    let a = match narrow(y.a.raw as i128 + qa) {
        Err(e) => return Err(e),
        Ok(v) => v,
    };
    let qb = mul_div(h.raw, k.b.raw, d);
    let b = match narrow(y.b.raw as i128 + qb) {
        Err(e) => return Err(e),
        Ok(v) => v,
    };
    Ok(State { a, b })
}

/// `k1 + 2 k2 + 2 k3 + k4` in each pool, as `weighted_sum_spec` states it.
fn weighted_sum(k1: &State, k2: &State, k3: &State, k4: &State) -> (r: Result<State, SimError>)
    ensures
        r == weighted_sum_spec(*k1, *k2, *k3, *k4),
{
    let a = match narrow(k1.a.raw as i128 + 2 * (k2.a.raw as i128) + 2 * (k3.a.raw as i128) + k4.a.raw as i128) {
        Err(e) => return Err(e),
        Ok(v) => v,
    };
    let b = match narrow(k1.b.raw as i128 + 2 * (k2.b.raw as i128) + 2 * (k3.b.raw as i128) + k4.b.raw as i128) {
        Err(e) => return Err(e),
        Ok(v) => v,
    };
    Ok(State { a, b })
}

/// Advances `s` by one Runge-Kutta step of size `h`. The result is a new state with
/// the diagnostics of the final evaluation; on an error nothing is returned but the
/// error, so the caller's state stays as it was.
pub fn step(p: &Parameters, s: &State, h: Fixed) -> (r: Result<(State, AuxiliaryResults), SimError>)
    requires
        p.valid(),
    ensures
        r == step_spec(*p, *s, h),
{
    let half: u64 = 2 * SCALE as u64;
    let d1 = match derivative(p, s) {
        Err(e) => return Err(e),
        Ok(d) => d,
    };
    let s2 = match shift(s, h, &d1.rates, half) {
        Err(e) => return Err(e),
        Ok(v) => v,
    };
    let d2 = match derivative(p, &s2) {
        Err(e) => return Err(e),
        Ok(d) => d,
    };
    let s3 = match shift(s, h, &d2.rates, half) {
        Err(e) => return Err(e),
        Ok(v) => v,
    };
    let d3 = match derivative(p, &s3) {
        Err(e) => return Err(e),
        Ok(d) => d,
    };
    let s4 = match shift(s, h, &d3.rates, SCALE as u64) {
        Err(e) => return Err(e),
        Ok(v) => v,
    };
    let d4 = match derivative(p, &s4) {
        Err(e) => return Err(e),
        Ok(d) => d,
    };
    let w = match weighted_sum(&d1.rates, &d2.rates, &d3.rates, &d4.rates) {
        Err(e) => return Err(e),
        Ok(v) => v,
    };
    match shift(s, h, &w, 6 * SCALE as u64) {
        Err(e) => Err(e),
        Ok(next) => Ok((next, d4.aux)),
    }
}

/// A step depends on its arguments alone: the same parameters, state and step size
/// give the same result every time.
pub proof fn lemma_step_deterministic(p: Parameters, s1: State, s2: State, h1: Fixed, h2: Fixed)
    requires
        s1 == s2,
        h1 == h2,
    ensures
        step_spec(p, s1, h1) == step_spec(p, s2, h2),
{
}

/// Shifting by a zero rate leaves a state as it is.
proof fn lemma_shift_by_zero(y: State, h: Fixed, k: State, d: int)
    requires
        d > 0,
        k.a.raw == 0,
        k.b.raw == 0,
    ensures
        shift_spec(y, h, k, d) == Ok::<State, SimError>(y),
{
    assert(h.raw * 0 == 0);
    assert(scaled_product(h.raw as int, 0, d) == 0);
}

/// At an equilibrium (the external input equals the outflow and neither pool
/// changes), a step of any size returns the same state, with the diagnostics of that
/// state.
pub proof fn lemma_equilibrium_step(p: Parameters, s: State, h: Fixed)
    requires
        derivative_spec(p, s) matches Ok(d) && {
            &&& d.aux.fbo == p.external_input
            &&& d.rates.a.raw == 0
            &&& d.rates.b.raw == 0
        },
    ensures
        derivative_spec(p, s) matches Ok(d) && step_spec(p, s, h) == Ok::<
            (State, AuxiliaryResults),
            SimError,
        >((s, d.aux)),
{
    let d = derivative_spec(p, s)->Ok_0;
    lemma_shift_by_zero(s, h, d.rates, 2 * SCALE);
    lemma_shift_by_zero(s, h, d.rates, SCALE as int);
    assert(weighted_sum_spec(d.rates, d.rates, d.rates, d.rates) == Ok::<State, SimError>(d.rates));
    lemma_shift_by_zero(s, h, d.rates, 6 * SCALE);
}

} // verus!
