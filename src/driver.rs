use vstd::prelude::*;

use crate::error::SimError;
use crate::fixed::{checked, narrow, Fixed};
use crate::integrator::{lemma_equilibrium_step, step, step_spec};
use crate::model::{derivative, derivative_spec, AuxiliaryResults, Parameters, State};

verus! {

/// The time, state and diagnostics recorded after a committed step (or at the start).
#[derive(Clone, Copy, Debug, PartialEq, Eq, Structural)]
pub struct TraceRecord {
    pub time: Fixed,
    pub state: State,
    pub aux: AuxiliaryResults,
}

/// The records of a run in order, and the error that halted it, if one did.
#[derive(Debug)]
pub struct Trace {
    pub records: Vec<TraceRecord>,
    pub halted: Option<SimError>,
}

/// Told of every record that a run commits after its first.
pub trait StepObserver {
    fn on_commit(&mut self, record: &TraceRecord);
}

/// The first record of a run: the initial state at time `t0`, with the diagnostics of
/// the model evaluated there.
pub open spec fn initial_record_spec(p: Parameters, s0: State, t0: Fixed) -> Result<TraceRecord, SimError> {
    match derivative_spec(p, s0) {
        Err(e) => Err(e),
        Ok(d) => Ok(TraceRecord { time: t0, state: s0, aux: d.aux }),
    }
}

/// The record that follows `r` after one step of size `h`; the step's error, or the
/// numerical error when the time leaves the representable range.
pub open spec fn next_record_spec(p: Parameters, r: TraceRecord, h: Fixed) -> Result<TraceRecord, SimError> {
    match step_spec(p, r.state, h) {
        Err(e) => Err(e),
        Ok(next) => match checked(r.time.raw + h.raw) {
            Err(e) => Err(e),
            Ok(t) => Ok(TraceRecord { time: t, state: next.0, aux: next.1 }),
        },
    }
}

/// `rs` starts with the initial record of `s0` at `t0`, and each later record follows
/// its predecessor by one step of size `h`.
pub open spec fn is_trace_of(p: Parameters, s0: State, t0: Fixed, h: Fixed, rs: Seq<TraceRecord>) -> bool {
    &&& rs.len() > 0
    &&& initial_record_spec(p, s0, t0) == Ok::<TraceRecord, SimError>(rs[0])
    &&& forall|i: int|
        0 <= i < rs.len() - 1 ==> #[trigger] next_record_spec(p, rs[i], h)
            == Ok::<TraceRecord, SimError>(rs[i + 1])
}

/// The first record of a run, as `initial_record_spec` states it.
pub fn initial_record(p: &Parameters, s0: &State, t0: Fixed) -> (r: Result<TraceRecord, SimError>)
    requires
        p.valid(),
    ensures
        r == initial_record_spec(*p, *s0, t0),
{
    match derivative(p, s0) {
        Err(e) => Err(e),
        Ok(d) => Ok(TraceRecord { time: t0, state: *s0, aux: d.aux }),
    }
}

/// The record after `r`, as `next_record_spec` states it.
pub fn next_record(p: &Parameters, r: &TraceRecord, h: Fixed) -> (n: Result<TraceRecord, SimError>)
    requires
        p.valid(),
    ensures
        n == next_record_spec(*p, *r, h),
{
    let next = match step(p, &r.state, h) {
        Err(e) => return Err(e),
        Ok(v) => v,
    };
    match narrow(r.time.raw as i128 + h.raw as i128) {
        Err(e) => Err(e),
        Ok(t) => Ok(TraceRecord { time: t, state: next.0, aux: next.1 }),
    }
}

/// Runs `num_steps` steps of size `h` from `s0` at time `t0`, telling `observer` of
/// each committed record. The trace starts with the initial record; an error ends the
/// run and is reported beside the records committed before it.
pub fn run<O: StepObserver>(p: &Parameters, s0: &State, t0: Fixed, h: Fixed, num_steps: usize, observer: &mut O) -> (r: Trace)
    requires
        p.valid(),
    ensures
        initial_record_spec(*p, *s0, t0) matches Err(e) ==> r.records@.len() == 0 && r.halted
            == Some(e),
        initial_record_spec(*p, *s0, t0) is Ok ==> {
            &&& is_trace_of(*p, *s0, t0, h, r.records@)
            &&& r.halted is None ==> r.records@.len() == num_steps + 1
            &&& r.halted matches Some(e) ==> r.records@.len() <= num_steps && next_record_spec(
                *p,
                r.records@.last(),
                h,
            ) == Err::<TraceRecord, SimError>(e)
        },
        num_steps == 0 && initial_record_spec(*p, *s0, t0) is Ok ==> r.records@.len() == 1
            && r.records@[0].state == *s0 && r.halted is None,
{
    let mut records: Vec<TraceRecord> = Vec::new();
    let mut current = match initial_record(p, s0, t0) {
        Err(e) => return Trace { records, halted: Some(e) },
        Ok(first) => first,
    };
    records.push(current);
    let mut i: usize = 0;
    while i < num_steps
        invariant
            p.valid(),
            i <= num_steps,
            records@.len() == i + 1,
            current == records@.last(),
            is_trace_of(*p, *s0, t0, h, records@),
        decreases num_steps - i,
    {
        match next_record(p, &current, h) {
            Err(e) => return Trace { records, halted: Some(e) },
            Ok(next) => {
                records.push(next);
                observer.on_commit(&next);
                current = next;
            },
        }
        i = i + 1;
    }
    Trace { records, halted: None }
}

/// Started at an equilibrium (the external input equals the outflow and neither pool
/// changes), every record of a trace holds the initial state.
pub proof fn lemma_equilibrium_trace(p: Parameters, s0: State, t0: Fixed, h: Fixed, rs: Seq<TraceRecord>)
    requires
        is_trace_of(p, s0, t0, h, rs),
        derivative_spec(p, s0) matches Ok(d) && {
            &&& d.aux.fbo == p.external_input
            &&& d.rates.a.raw == 0
            &&& d.rates.b.raw == 0
        },
    ensures
        forall|i: int| 0 <= i < rs.len() ==> (#[trigger] rs[i]).state == s0,
    decreases rs.len(),
{
    if rs.len() > 1 {
        let prefix = rs.drop_last();
        assert forall|i: int| 0 <= i < prefix.len() - 1 implies #[trigger] next_record_spec(
            p,
            prefix[i],
            h,
        ) == Ok::<TraceRecord, SimError>(prefix[i + 1]) by {
            assert(next_record_spec(p, rs[i], h) == Ok::<TraceRecord, SimError>(rs[i + 1]));
        }
        lemma_equilibrium_trace(p, s0, t0, h, prefix);
        let j = rs.len() - 2;
        assert(prefix[j].state == s0);
        lemma_equilibrium_step(p, s0, h);
        assert(next_record_spec(p, rs[j], h) == Ok::<TraceRecord, SimError>(rs[j + 1]));
        assert forall|i: int| 0 <= i < rs.len() implies (#[trigger] rs[i]).state == s0 by {
            if i < rs.len() - 1 {
                assert(rs[i] == prefix[i]);
            }
        }
    }
}

} // verus!
