use two_pool::{
    derivative, initial_record, next_record, run, step, Fixed, Parameters, SimError, State,
    StepObserver, TraceRecord, SCALE,
};

fn fx(raw: i64) -> Fixed {
    Fixed::from_raw(raw)
}

fn whole(n: i64) -> Fixed {
    Fixed::from_int(n).unwrap()
}

fn two_pool_parameters() -> Parameters {
    Parameters::new(
        [whole(20), whole(25)],
        whole(3),
        [whole(18), whole(13), whole(8)],
        [fx(320_000_000), fx(360_000_000), fx(310_000_000)],
    )
    .unwrap()
}

fn state(a: Fixed, b: Fixed) -> State {
    State { a, b }
}

struct Counter {
    seen: Vec<TraceRecord>,
}

impl StepObserver for Counter {
    fn on_commit(&mut self, record: &TraceRecord) {
        self.seen.push(*record);
    }
}

fn counter() -> Counter {
    Counter { seen: Vec::new() }
}

#[test]
fn derivative_at_initial_state() {
    let p = two_pool_parameters();
    let d = derivative(&p, &state(whole(9), whole(6))).unwrap();
    assert_eq!(d.aux.con_a.raw, 450_000_000);
    assert_eq!(d.aux.con_b.raw, 240_000_000);
    assert_eq!(d.aux.fab.raw, 10_519_480_519);
    assert_eq!(d.aux.fba.raw, 5_200_000_000);
    assert_eq!(d.aux.fbo.raw, 3_490_909_090);
    assert_eq!(d.rates.a.raw, -2_319_480_519);
    assert_eq!(d.rates.b.raw, 1_828_571_429);
}

#[test]
fn fluxes_lie_below_their_maxima() {
    let p = two_pool_parameters();
    for (a, b) in [(1, 1), (9, 6), (1_000_000, 3), (2, 1_000_000)] {
        let d = derivative(&p, &state(whole(a), whole(b))).unwrap();
        assert!(d.aux.fab.raw >= 0 && d.aux.fab.raw < p.vmax_ab.raw);
        assert!(d.aux.fba.raw >= 0 && d.aux.fba.raw < p.vmax_ba.raw);
        assert!(d.aux.fbo.raw >= 0 && d.aux.fbo.raw < p.vmax_bo.raw);
    }
    let tiny = derivative(&p, &state(fx(1), fx(1))).unwrap();
    assert_eq!(tiny.aux.con_a.raw, 0);
    assert_eq!(tiny.aux.fab.raw, 0);
}

#[test]
fn one_step_from_initial_state() {
    let p = two_pool_parameters();
    let (next, aux) = step(&p, &state(whole(9), whole(6)), fx(100_000_000)).unwrap();
    assert_eq!(next, state(fx(8_778_070_394), fx(6_170_005_901)));
    assert_eq!(aux.con_a.raw, 438_892_668);
    assert_eq!(aux.con_b.raw, 246_811_755);
    assert_eq!(aux.fab.raw, 10_409_993_872);
    assert_eq!(aux.fba.raw, 5_287_558_766);
    assert_eq!(aux.fbo.raw, 3_546_071_041);
}

#[test]
fn step_is_deterministic() {
    let p = two_pool_parameters();
    let s = state(whole(9), whole(6));
    let first = step(&p, &s, fx(100_000_000));
    let second = step(&p, &s, fx(100_000_000));
    assert_eq!(first, second);
}

#[test]
fn zero_steps_give_the_initial_record() {
    let p = two_pool_parameters();
    let s0 = state(whole(9), whole(6));
    let mut obs = counter();
    let trace = run(&p, &s0, whole(0), fx(100_000_000), 0, &mut obs);
    assert_eq!(trace.halted, None);
    assert_eq!(trace.records.len(), 1);
    assert_eq!(trace.records[0].state, s0);
    assert_eq!(trace.records[0].time, whole(0));
    assert_eq!(trace.records[0].aux, derivative(&p, &s0).unwrap().aux);
    assert!(obs.seen.is_empty());
}

#[test]
fn hundred_steps_of_two_pool_model() {
    let p = two_pool_parameters();
    let mut obs = counter();
    let trace = run(&p, &state(whole(9), whole(6)), whole(0), fx(100_000_000), 100, &mut obs);
    assert_eq!(trace.halted, None);
    assert_eq!(trace.records.len(), 101);
    assert_eq!(trace.records[0].time.raw, 0);
    assert_eq!(trace.records[100].time.raw, 10 * SCALE);
    assert!(((trace.records[100].time.raw as f64) / (SCALE as f64) - 10.0).abs() < 1e-9);
    for r in &trace.records {
        assert!(r.aux.con_a.raw >= 0 && r.aux.con_b.raw >= 0);
        assert!(r.aux.fab.raw >= 0 && r.aux.fba.raw >= 0 && r.aux.fbo.raw >= 0);
    }
    assert_eq!(trace.records[100].state, state(fx(4_907_396_188), fx(5_139_572_667)));
    assert_eq!(obs.seen.len(), 100);
    assert_eq!(obs.seen[..], trace.records[1..]);
}

#[test]
fn empty_pool_is_a_domain_error() {
    let p = two_pool_parameters();
    let s0 = state(whole(0), whole(6));
    assert_eq!(derivative(&p, &s0), Err(SimError::Domain));
    assert_eq!(initial_record(&p, &s0, whole(0)), Err(SimError::Domain));
    let mut obs = counter();
    let trace = run(&p, &s0, whole(0), fx(100_000_000), 10, &mut obs);
    assert_eq!(trace.halted, Some(SimError::Domain));
    assert!(trace.records.is_empty());
    assert!(obs.seen.is_empty());
    assert_eq!(derivative(&p, &state(whole(9), fx(-1))), Err(SimError::Domain));
}

#[test]
fn run_halts_and_keeps_the_truncated_trace() {
    let p = two_pool_parameters();
    // A step far too long for the dynamics drives a pool below zero.
    let mut obs = counter();
    let trace = run(&p, &state(whole(9), whole(6)), whole(0), whole(5), 10, &mut obs);
    assert_eq!(trace.halted, Some(SimError::Domain));
    assert_eq!(trace.records.len(), 1);
    let last = trace.records.last().unwrap();
    assert_eq!(next_record(&p, last, whole(5)), Err(SimError::Domain));
}

#[test]
fn overflow_is_a_numerical_error() {
    let p = Parameters::new(
        [fx(1), whole(25)],
        whole(3),
        [whole(18), whole(13), whole(8)],
        [fx(320_000_000), fx(360_000_000), fx(310_000_000)],
    )
    .unwrap();
    assert!(derivative(&p, &state(whole(9), whole(6))).is_ok());
    assert_eq!(derivative(&p, &state(whole(10), whole(6))), Err(SimError::Numerical));
    let q = two_pool_parameters();
    let r = TraceRecord {
        time: fx(i64::MAX),
        state: state(whole(9), whole(6)),
        aux: derivative(&q, &state(whole(9), whole(6))).unwrap().aux,
    };
    assert_eq!(next_record(&q, &r, fx(1)), Err(SimError::Numerical));
}

#[test]
fn malformed_configuration_is_refused() {
    let good_k = [fx(320_000_000), fx(360_000_000), fx(310_000_000)];
    let good_v = [whole(18), whole(13), whole(8)];
    assert_eq!(
        Parameters::new([whole(0), whole(25)], whole(3), good_v, good_k),
        Err(SimError::Configuration)
    );
    assert_eq!(
        Parameters::new([whole(20), fx(-1)], whole(3), good_v, good_k),
        Err(SimError::Configuration)
    );
    assert_eq!(
        Parameters::new([whole(20), whole(25)], whole(3), [whole(18), whole(0), whole(8)], good_k),
        Err(SimError::Configuration)
    );
    assert_eq!(
        Parameters::new([whole(20), whole(25)], whole(3), good_v, [fx(1), fx(1), fx(0)]),
        Err(SimError::Configuration)
    );
    assert_eq!(
        Parameters::new([whole(20), whole(25)], fx(i64::MAX), good_v, good_k),
        Err(SimError::Configuration)
    );
    assert_eq!(State::from_amounts(&vec![whole(9)]), Err(SimError::Configuration));
    assert_eq!(
        State::from_amounts(&vec![whole(9), whole(6), whole(1)]),
        Err(SimError::Configuration)
    );
    let s = State::from_amounts(&vec![whole(9), whole(6)]).unwrap();
    assert_eq!(s, state(whole(9), whole(6)));
    assert_eq!(s.to_amounts(), vec![whole(9), whole(6)]);
}

#[test]
fn equilibrium_is_kept_by_every_step() {
    // Each concentration equals its affinity constant, so each flux is half its maximum.
    let p = Parameters::new(
        [whole(2), whole(4)],
        whole(1),
        [whole(6), whole(4), whole(2)],
        [fx(500_000_000), fx(250_000_000), fx(250_000_000)],
    )
    .unwrap();
    let s0 = state(whole(1), whole(1));
    let d = derivative(&p, &s0).unwrap();
    assert_eq!(d.aux.fbo, p.external_input);
    assert_eq!(d.rates, state(whole(0), whole(0)));
    let mut obs = counter();
    let trace = run(&p, &s0, whole(0), fx(100_000_000), 50, &mut obs);
    assert_eq!(trace.halted, None);
    assert_eq!(trace.records.len(), 51);
    for r in &trace.records {
        assert_eq!(r.state, s0);
    }
}

fn final_state(h: i64, n: usize) -> State {
    let p = two_pool_parameters();
    let mut obs = counter();
    let trace = run(&p, &state(whole(9), whole(6)), whole(0), fx(h), n, &mut obs);
    assert_eq!(trace.halted, None);
    trace.records[n].state
}

#[test]
fn halving_the_step_cuts_the_error_sixteenfold() {
    let reference = final_state(10_000_000, 320);
    let error = |s: State| {
        ((s.a.raw - reference.a.raw).abs()).max((s.b.raw - reference.b.raw).abs()) as f64
    };
    let coarse = error(final_state(400_000_000, 8));
    let fine = error(final_state(200_000_000, 16));
    let ratio = coarse / fine;
    assert!(ratio > 12.0 && ratio < 24.0, "ratio {}", ratio);
}

#[test]
fn whole_numbers_out_of_range_are_refused() {
    assert_eq!(Fixed::from_int(3), Some(fx(3 * SCALE)));
    assert_eq!(Fixed::from_int(-2).unwrap().raw, -2 * SCALE);
    assert_eq!(Fixed::from_int(i64::MAX / 1000), None);
    assert_eq!(Fixed::zero().raw, 0);
}
