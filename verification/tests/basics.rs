//! Unit-style tests for the public API.

use libretry::{advance, compute, select_base, ApplyJitter, NoJitter, Duration, Params, State, Step, Termination};

fn ms(n: u64) -> Duration {
    Duration::from_millis(n)
}

fn base_params() -> Params {
    Params {
        initial_rt: ms(1000),
        max_interval: None,
        max_retries: None,
        max_duration: None,
    }
}

/// Schedules the given timeouts, one per call, ignoring the base.
struct FixedTimeouts {
    rts: Vec<Duration>,
    next: usize,
    bases: Vec<Duration>,
}

impl FixedTimeouts {
    fn new(rts: Vec<Duration>) -> Self {
        FixedTimeouts { rts, next: 0, bases: Vec::new() }
    }
}

impl ApplyJitter for FixedTimeouts {
    fn apply(&mut self, base: Duration) -> Duration {
        self.bases.push(base);
        let rt = self.rts[self.next];
        self.next += 1;
        rt
    }
}

#[test]
fn first_call_uses_initial_rt() {
    let params = base_params();
    let mut jitter = NoJitter;
    let step = compute(&params, State::default(), &mut jitter);
    match step {
        Step::Wait { rt, state } => {
            assert_eq!(rt, ms(1000));
            assert_eq!(state.retries, 1);
        }
        Step::GiveUp { .. } => panic!("expected Wait, got {step:?}"),
    }
}

#[test]
fn doubling_without_cap() {
    let params = base_params();
    let mut jitter = NoJitter;
    let mut state = State::default();
    for want in [ms(1000), ms(2000), ms(4000), ms(8000)] {
        match compute(&params, state, &mut jitter) {
            Step::Wait { rt, state: s } => {
                assert_eq!(rt, want);
                state = s;
            }
            other => panic!("expected Wait, got {other:?}"),
        }
    }
}

#[test]
fn basics_max_interval_caps() {
    let mut params = base_params();
    params.max_interval = Some(ms(3000));
    let mut jitter = NoJitter;
    let mut state = State::default();
    for want in [ms(1000), ms(2000), ms(3000), ms(3000)] {
        match compute(&params, state, &mut jitter) {
            Step::Wait { rt, state: s } => {
                assert_eq!(rt, want);
                state = s;
            }
            other => panic!("expected Wait, got {other:?}"),
        }
    }
}

#[test]
fn first_call_detection_uses_retries_not_last_rt() {
    // A caller resuming from a checkpointed state with retries > 0 (even
    // if last_rt happens to be zero) must NOT be treated as a first call.
    let params = base_params();
    let prev = State {
        retries: 1,
        last_rt: Duration::zero(),
        elapsed: ms(1000),
    };
    let mut jitter = NoJitter;
    match compute(&params, prev, &mut jitter) {
        Step::Wait { rt, .. } => assert_eq!(rt, Duration::zero()),
        other => panic!("expected Wait, got {other:?}"),
    }
}

#[test]
fn max_retries_zero_gives_up_immediately() {
    let mut params = base_params();
    params.max_retries = Some(0);
    let mut jitter = NoJitter;
    match compute(&params, State::default(), &mut jitter) {
        Step::GiveUp { reason, state } => {
            assert_eq!(reason, Termination::MaxRetries);
            assert_eq!(state.retries, 1);
        }
        other => panic!("expected GiveUp, got {other:?}"),
    }
}

#[test]
fn max_retries_exceeded() {
    let mut params = base_params();
    params.initial_rt = ms(100);
    params.max_retries = Some(2);
    let mut jitter = NoJitter;
    let mut state = State::default();
    for _ in 0..2 {
        match compute(&params, state, &mut jitter) {
            Step::Wait { state: s, .. } => state = s,
            other => panic!("unexpected GiveUp: {other:?}"),
        }
    }
    match compute(&params, state, &mut jitter) {
        Step::GiveUp { reason, .. } => assert_eq!(reason, Termination::MaxRetries),
        other => panic!("expected GiveUp, got {other:?}"),
    }
}

#[test]
fn max_duration_exceeded() {
    let mut params = base_params();
    params.max_interval = Some(ms(10_000));
    params.max_duration = Some(ms(5_000));
    let mut jitter = NoJitter;
    let mut state = State::default();
    for _ in 0..2 {
        match compute(&params, state, &mut jitter) {
            Step::Wait { state: s, .. } => state = s,
            other => panic!("unexpected GiveUp: {other:?}"),
        }
    }
    match compute(&params, state, &mut jitter) {
        Step::GiveUp { reason, .. } => assert_eq!(reason, Termination::MaxDuration),
        other => panic!("expected GiveUp, got {other:?}"),
    }
}

#[test]
fn first_rt_exceeding_max_duration_gives_up_immediately() {
    let mut params = base_params();
    params.max_duration = Some(ms(500));
    let mut jitter = NoJitter;
    match compute(&params, State::default(), &mut jitter) {
        Step::GiveUp { reason, .. } => assert_eq!(reason, Termination::MaxDuration),
        other => panic!("expected GiveUp, got {other:?}"),
    }
}

#[test]
fn rekey_mid_sequence() {
    let mut params = base_params();
    params.max_interval = Some(ms(5000));
    let mut jitter = NoJitter;
    let mut state = State::default();
    for _ in 0..3 {
        state = compute(&params, state, &mut jitter).state();
    }
    assert_eq!(state.last_rt, ms(4000));

    // Re-key: lower MRT to 3000ms. State carries forward unchanged.
    params.max_interval = Some(ms(3000));
    let mut jitter2 = NoJitter;
    match compute(&params, state, &mut jitter2) {
        Step::Wait { rt, .. } => assert_eq!(rt, ms(3000)),
        other => panic!("expected Wait, got {other:?}"),
    }
}

#[test]
fn params_new_defaults_to_unbounded() {
    let params = Params::new(ms(1000));
    assert_eq!(params.max_interval, None);
    assert_eq!(params.max_retries, None);
    assert_eq!(params.max_duration, None);
}

#[test]
fn params_builder_with_methods() {
    let params = Params::new(ms(1000))
        .with_max_interval(ms(30_000))
        .with_max_retries(10)
        .with_max_duration(ms(60_000));
    assert_eq!(
        params,
        Params {
            initial_rt: ms(1000),
            max_interval: Some(ms(30_000)),
            max_retries: Some(10),
            max_duration: Some(ms(60_000)),
        }
    );
}

#[test]
fn params_from_millis_sets_only_given_bounds() {
    let params = Params::from_millis(1000, Some(3000), None, Some(60_000));
    assert_eq!(
        params,
        Params::new(ms(1000))
            .with_max_interval(ms(3000))
            .with_max_duration(ms(60_000))
    );
    assert_eq!(Params::from_millis(7, None, Some(3), None), Params::new(ms(7)).with_max_retries(3));
}

#[test]
fn compute_asks_jitter_with_base_and_schedules_its_answer() {
    let params = base_params().with_max_interval(ms(3000));
    let mut jitter = FixedTimeouts::new(vec![ms(1100), ms(1900), ms(0)]);
    let mut state = State::default();
    let mut rts = Vec::new();
    for _ in 0..3 {
        match compute(&params, state, &mut jitter) {
            Step::Wait { rt, state: s } => {
                assert_eq!(s.last_rt, rt);
                rts.push(rt);
                state = s;
            }
            other => panic!("expected Wait, got {other:?}"),
        }
    }
    assert_eq!(rts, vec![ms(1100), ms(1900), ms(0)]);
    // Bases: the initial timeout, then double the previous timeout, capped.
    assert_eq!(jitter.bases, vec![ms(1000), ms(2200), ms(3000)]);
    assert_eq!(state.retries, 3);
    assert_eq!(state.elapsed, ms(3000));
}

#[test]
fn select_base_doubles_and_caps() {
    let params = base_params().with_max_interval(ms(5000));
    let first = State::default();
    assert_eq!(select_base(&params, &first), ms(1000));
    let later = State { retries: 4, last_rt: ms(2400), elapsed: ms(9000) };
    assert_eq!(select_base(&params, &later), ms(4800));
    let capped = State { retries: 4, last_rt: ms(2600), elapsed: ms(9000) };
    assert_eq!(select_base(&params, &capped), ms(5000));
    // The cap does not apply to the first call.
    let params_low_cap = base_params().with_max_interval(ms(10));
    assert_eq!(select_base(&params_low_cap, &first), ms(1000));
}

#[test]
fn select_base_saturates_at_max_duration() {
    let params = base_params();
    let prev = State { retries: 1, last_rt: Duration::max_value(), elapsed: Duration::zero() };
    assert_eq!(select_base(&params, &prev), Duration::max_value());
}

#[test]
fn advance_counts_and_accumulates() {
    let params = base_params();
    let prev = State { retries: 6, last_rt: ms(300), elapsed: ms(1000) };
    match advance(&params, prev, ms(250)) {
        Step::Wait { rt, state } => {
            assert_eq!(rt, ms(250));
            assert_eq!(state, State { retries: 7, last_rt: ms(250), elapsed: ms(1250) });
        }
        other => panic!("expected Wait, got {other:?}"),
    }
}

#[test]
fn advance_saturates_retries_and_elapsed() {
    let params = base_params();
    let prev = State { retries: u64::MAX, last_rt: ms(1), elapsed: Duration::max_value() };
    let state = advance(&params, prev, ms(5)).state();
    assert_eq!(state.retries, u64::MAX);
    assert_eq!(state.elapsed, Duration::max_value());
    assert_eq!(state.last_rt, ms(5));
}

#[test]
fn advance_max_retries_takes_precedence_over_max_duration() {
    let params = base_params().with_max_retries(1).with_max_duration(ms(10));
    let prev = State { retries: 1, last_rt: ms(1000), elapsed: ms(1000) };
    match advance(&params, prev, ms(2000)) {
        Step::GiveUp { reason, state } => {
            assert_eq!(reason, Termination::MaxRetries);
            assert_eq!(state.retries, 2);
            assert_eq!(state.elapsed, ms(3000));
        }
        other => panic!("expected GiveUp, got {other:?}"),
    }
}

#[test]
fn advance_elapsed_exactly_at_max_duration_waits() {
    let params = base_params().with_max_duration(ms(3000));
    let prev = State { retries: 1, last_rt: ms(1000), elapsed: ms(1000) };
    assert!(matches!(advance(&params, prev, ms(2000)), Step::Wait { .. }));
    let over = advance(&params, prev, Duration::from_nanos(2_000_000_001));
    assert!(matches!(
        over,
        Step::GiveUp { reason: Termination::MaxDuration, .. }
    ));
}

#[test]
fn max_retries_at_u64_max_never_exhausts() {
    let params = base_params().with_max_retries(u64::MAX);
    let prev = State { retries: u64::MAX, last_rt: ms(1), elapsed: ms(1) };
    assert!(matches!(advance(&params, prev, ms(1)), Step::Wait { .. }));
}

#[test]
fn step_state_returns_state_of_either_variant() {
    let s = State { retries: 3, last_rt: ms(7), elapsed: ms(9) };
    assert_eq!(Step::Wait { rt: ms(7), state: s }.state(), s);
    assert_eq!(Step::GiveUp { reason: Termination::MaxDuration, state: s }.state(), s);
}

#[test]
fn default_state_is_zero() {
    let s = State::default();
    assert_eq!(s.retries, 0);
    assert_eq!(s.last_rt, Duration::zero());
    assert_eq!(s.elapsed, Duration::zero());
}
