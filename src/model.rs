use vstd::prelude::*;

use crate::error::SimError;
use crate::fixed::{checked, fits, narrow, Fixed, SCALE};

verus! {

/// Largest raw magnitude of a maximum rate or of the external input. The bound keeps
/// every rate of change representable.
pub const MAX_RATE: i64 = 0x2000_0000_0000_0000;

/// The constants of the model, fixed for the lifetime of a run.
#[derive(Clone, Copy, Debug, PartialEq, Eq, Structural)]
pub struct Parameters {
    /// Capacity (volume) of pool A.
    pub capacity_a: Fixed,
    /// Capacity (volume) of pool B.
    pub capacity_b: Fixed,
    /// Constant inflow into pool A.
    pub external_input: Fixed,
    /// Maximum rate of the flux from A to B.
    pub vmax_ab: Fixed,
    /// Maximum rate of the flux from B to A.
    pub vmax_ba: Fixed,
    /// Maximum rate of the flux out of B.
    pub vmax_bo: Fixed,
    /// Affinity constant of the flux from A to B.
    pub k_ab: Fixed,
    /// Affinity constant of the flux from B to A.
    pub k_ba: Fixed,
    /// Affinity constant of the flux out of B.
    pub k_bo: Fixed,
}

/// Amount of substance in each pool (or, for a derivative, its rate of change).
#[derive(Clone, Copy, Debug, PartialEq, Eq, Structural)]
pub struct State {
    pub a: Fixed,
    pub b: Fixed,
}

/// Diagnostic values computed alongside a derivative: the concentrations of the two
/// pools and the three fluxes.
#[derive(Clone, Copy, Debug, PartialEq, Eq, Structural)]
pub struct AuxiliaryResults {
    pub con_a: Fixed,
    pub con_b: Fixed,
    pub fab: Fixed,
    pub fba: Fixed,
    pub fbo: Fixed,
}

/// One evaluation of the model: the rates of change and the diagnostics behind them.
#[derive(Clone, Copy, Debug, PartialEq, Eq, Structural)]
pub struct Derivative {
    pub rates: State,
    pub aux: AuxiliaryResults,
}

/// A maximum rate lies in `(0, MAX_RATE]`.
pub open spec fn valid_vmax(v: Fixed) -> bool {
    0 < v.raw <= MAX_RATE
}

impl Parameters {
    /// Capacities and affinity constants are positive, maximum rates are positive and
    /// bounded, and the external input is bounded in magnitude.
    pub open spec fn valid(&self) -> bool {
        &&& self.capacity_a.raw > 0
        &&& self.capacity_b.raw > 0
        &&& -MAX_RATE <= self.external_input.raw <= MAX_RATE
        &&& valid_vmax(self.vmax_ab)
        &&& valid_vmax(self.vmax_ba)
        &&& valid_vmax(self.vmax_bo)
        &&& self.k_ab.raw > 0
        &&& self.k_ba.raw > 0
        &&& self.k_bo.raw > 0
    }

    /// The parameters from capacities `[A, B]`, the external input, maximum rates and
    /// affinity constants in the order `[A to B, B to A, B out]`; the configuration
    /// error when they are malformed.
    pub fn new(capacities: [Fixed; 2], external_input: Fixed, vmax: [Fixed; 3], affinity: [Fixed; 3]) -> (r: Result<Parameters, SimError>)
        ensures
            ({
                let p = Parameters {
                    capacity_a: capacities@[0],
                    capacity_b: capacities@[1],
                    external_input,
                    vmax_ab: vmax@[0],
                    vmax_ba: vmax@[1],
                    vmax_bo: vmax@[2],
                    k_ab: affinity@[0],
                    k_ba: affinity@[1],
                    k_bo: affinity@[2],
                };
                if p.valid() {
                    r == Ok::<Parameters, SimError>(p)
                } else {
                    r == Err::<Parameters, SimError>(SimError::Configuration)
                }
            }),
    {
        let p = Parameters {
            capacity_a: capacities[0],
            capacity_b: capacities[1],
            external_input,
            vmax_ab: vmax[0],
            vmax_ba: vmax[1],
            vmax_bo: vmax[2],
            k_ab: affinity[0],
            k_ba: affinity[1],
            k_bo: affinity[2],
        };
        let ok = p.capacity_a.raw > 0 && p.capacity_b.raw > 0 && -MAX_RATE <= p.external_input.raw
            && p.external_input.raw <= MAX_RATE && 0 < p.vmax_ab.raw && p.vmax_ab.raw <= MAX_RATE
            && 0 < p.vmax_ba.raw && p.vmax_ba.raw <= MAX_RATE && 0 < p.vmax_bo.raw
            && p.vmax_bo.raw <= MAX_RATE && p.k_ab.raw > 0 && p.k_ba.raw > 0 && p.k_bo.raw > 0;
        if ok {
            Ok(p)
        } else {
            Err(SimError::Configuration)
        }
    }
}

impl State {
    /// The state held by a vector of amounts `[A, B]`; the configuration error when
    /// the vector does not have one amount per pool.
    pub fn from_amounts(amounts: &Vec<Fixed>) -> (r: Result<State, SimError>)
        ensures
            amounts@.len() == 2 ==> r == Ok::<State, SimError>(
                State { a: amounts@[0], b: amounts@[1] },
            ),
            amounts@.len() != 2 ==> r == Err::<State, SimError>(SimError::Configuration),
    {
        if amounts.len() == 2 {
            Ok(State { a: amounts[0], b: amounts[1] })
        } else {
            Err(SimError::Configuration)
        }
    }

    /// The amounts `[A, B]`.
    pub fn to_amounts(&self) -> (r: Vec<Fixed>)
        ensures
            r@ == seq![self.a, self.b],
    {
        vec![self.a, self.b]
    }
}

/// Concentration of a pool holding `amount` in `capacity`, rounded down; the domain
/// error when it is not positive.
pub open spec fn concentration_of(amount: Fixed, capacity: Fixed) -> Result<Fixed, SimError> {
    if amount.raw <= 0 {
        Err(SimError::Domain)
    } else {
        checked(amount.raw * SCALE / (capacity.raw as int))
    }
}

/// The saturating flux `vmax * c / (c + k)`, rounded down, for concentration `c`.
pub open spec fn flux_of(vmax: int, k: int, c: int) -> int {
    vmax * c / (c + k)
}

/// The model evaluated at concentrations `ca` and `cb`.
pub open spec fn evaluate(p: Parameters, ca: Fixed, cb: Fixed) -> Derivative {
    let fab = flux_of(p.vmax_ab.raw as int, p.k_ab.raw as int, ca.raw as int);
    let fba = flux_of(p.vmax_ba.raw as int, p.k_ba.raw as int, cb.raw as int);
    let fbo = flux_of(p.vmax_bo.raw as int, p.k_bo.raw as int, cb.raw as int);
    Derivative {
        rates: State {
            a: Fixed { raw: (p.external_input.raw + fba - fab) as i64 },
            b: Fixed { raw: (fab - fba - fbo) as i64 },
        },
        aux: AuxiliaryResults {
            con_a: ca,
            con_b: cb,
            fab: Fixed { raw: fab as i64 },
            fba: Fixed { raw: fba as i64 },
            fbo: Fixed { raw: fbo as i64 },
        },
    }
}

/// The model at state `s`: pool A gains the external input and the flux from B and
/// loses the flux to B; pool B gains the flux from A and loses the flux to A and the
/// flux out. A concentration that is not positive, in A first, gives the domain error.
pub open spec fn derivative_spec(p: Parameters, s: State) -> Result<Derivative, SimError> {
    match concentration_of(s.a, p.capacity_a) {
        Err(e) => Err(e),
        Ok(ca) => match concentration_of(s.b, p.capacity_b) {
            Err(e) => Err(e),
            Ok(cb) => Ok(evaluate(p, ca, cb)),
        },
    }
}

/// Concentration of a pool, as `concentration_of` states it.
fn concentration(amount: Fixed, capacity: Fixed) -> (r: Result<Fixed, SimError>)
    requires
        capacity.raw > 0,
    ensures
        r == concentration_of(amount, capacity),
        r matches Ok(c) ==> c.raw >= 0,
{
    if amount.raw <= 0 {
        return Err(SimError::Domain);
    }
    proof {
        let q = amount.raw as int;
        assert(0 < q * SCALE <= 0x7fff_ffff_ffff_ffff * 1_000_000_000) by (nonlinear_arith)
            requires
                0 < q <= 0x7fff_ffff_ffff_ffff,
        ;
    }
    let num: u128 = (amount.raw as u128) * (SCALE as u128);
    let c: u128 = num / (capacity.raw as u128);
    assert(c <= num) by (nonlinear_arith)
        requires
            c as int == (num as int) / (capacity.raw as int),
            capacity.raw > 0,
    ;
    narrow(c as i128)
}

/// The saturating flux, as `flux_of` states it; it lies in `[0, vmax)`.
fn flux(vmax: Fixed, k: Fixed, c: Fixed) -> (r: Fixed)
    requires
        vmax.raw > 0,
        k.raw > 0,
        c.raw >= 0,
    ensures
        r.raw == flux_of(vmax.raw as int, k.raw as int, c.raw as int),
        0 <= r.raw < vmax.raw,
{
    proof {
        lemma_flux_below_vmax(vmax.raw as int, k.raw as int, c.raw as int);
        let v = vmax.raw as int;
        let ci = c.raw as int;
        assert(0 <= v * ci <= 0x7fff_ffff_ffff_ffff * 0x7fff_ffff_ffff_ffff) by (nonlinear_arith)
            requires
                0 < v <= 0x7fff_ffff_ffff_ffff,
                0 <= ci <= 0x7fff_ffff_ffff_ffff,
        ;
    }
    let num: u128 = (vmax.raw as u128) * (c.raw as u128);
    let den: u128 = (c.raw as u128) + (k.raw as u128);
    Fixed { raw: (num / den) as i64 }
}

/// A saturating flux is non-negative and stays below its maximum rate.
proof fn lemma_flux_below_vmax(v: int, k: int, c: int)
    requires
        v > 0,
        k > 0,
        c >= 0,
    ensures
        0 <= flux_of(v, k, c) < v,
{
    assert(0 <= v * c / (c + k) < v) by (nonlinear_arith)
        requires
            v > 0,
            k > 0,
            c >= 0,
    ;
}

/// Evaluates the model at state `s`: the rates of change of both pools and the
/// concentrations and fluxes behind them, or the error that `derivative_spec` gives.
pub fn derivative(p: &Parameters, s: &State) -> (r: Result<Derivative, SimError>)
    requires
        p.valid(),
    ensures
        r == derivative_spec(*p, *s),
{
    let ca = match concentration(s.a, p.capacity_a) {
        Err(e) => return Err(e),
        Ok(c) => c,
    };
    let cb = match concentration(s.b, p.capacity_b) {
        Err(e) => return Err(e),
        Ok(c) => c,
    };
    let fab = flux(p.vmax_ab, p.k_ab, ca);
    let fba = flux(p.vmax_ba, p.k_ba, cb);
    let fbo = flux(p.vmax_bo, p.k_bo, cb);
    let da: i64 = p.external_input.raw + fba.raw - fab.raw;
    let db: i64 = fab.raw - fba.raw - fbo.raw;
    Ok(Derivative {
        rates: State { a: Fixed { raw: da }, b: Fixed { raw: db } },
        aux: AuxiliaryResults { con_a: ca, con_b: cb, fab, fba, fbo },
    })
}

} // verus!

verus! {

/// For valid parameters and a state in which every concentration is positive (and
/// representable), the model evaluates without error, every concentration and flux is
/// non-negative, and each flux stays strictly below its maximum rate.
pub proof fn lemma_fluxes_bounded(p: Parameters, s: State)
    requires
        p.valid(),
        s.a.raw > 0,
        s.b.raw > 0,
        fits(s.a.raw * SCALE / (p.capacity_a.raw as int)),
        fits(s.b.raw * SCALE / (p.capacity_b.raw as int)),
    ensures
        derivative_spec(p, s) is Ok,
        derivative_spec(p, s) matches Ok(d) && {
            &&& d.aux.con_a.raw >= 0
            &&& d.aux.con_b.raw >= 0
            &&& 0 <= d.aux.fab.raw < p.vmax_ab.raw
            &&& 0 <= d.aux.fba.raw < p.vmax_ba.raw
            &&& 0 <= d.aux.fbo.raw < p.vmax_bo.raw
        },
{
    let ca = s.a.raw * SCALE / (p.capacity_a.raw as int);
    let cb = s.b.raw * SCALE / (p.capacity_b.raw as int);
    assert(ca >= 0 && cb >= 0) by (nonlinear_arith)
        requires
            ca == s.a.raw * SCALE / (p.capacity_a.raw as int),
            cb == s.b.raw * SCALE / (p.capacity_b.raw as int),
            s.a.raw > 0,
            s.b.raw > 0,
            p.capacity_a.raw > 0,
            p.capacity_b.raw > 0,
    ;
    lemma_flux_below_vmax(p.vmax_ab.raw as int, p.k_ab.raw as int, ca);
    lemma_flux_below_vmax(p.vmax_ba.raw as int, p.k_ba.raw as int, cb);
    lemma_flux_below_vmax(p.vmax_bo.raw as int, p.k_bo.raw as int, cb);
}

} // verus!
