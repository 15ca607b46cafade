//! Tests for the `Sequence` driver.

use libretry::{ApplyJitter, NoJitter, Duration, Params, Sequence, Termination};

fn ms(n: u64) -> Duration {
    Duration::from_millis(n)
}

/// Counts how often it is asked.
struct CountingJitter(u32);

impl ApplyJitter for CountingJitter {
    fn apply(&mut self, base: Duration) -> Duration {
        self.0 += 1;
        base
    }
}

#[test]
fn sequence_basic() {
    let params = Params::new(ms(500));
    let mut seq = Sequence::new(params, NoJitter);
    let want = [ms(500), ms(1000), ms(2000)];

    // params is fully unbounded, so stop after three steps.
    let mut got: Vec<Duration> = Vec::new();
    for _ in 0..3 {
        match seq.next() {
            Some(rt) => got.push(rt),
            None => break,
        }
    }

    assert_eq!(got, want);
    assert_eq!(seq.state().retries, 3);
    assert_eq!(seq.reason(), None);
}

#[test]
fn sequence_gives_up_and_stays_given_up() {
    let params = Params::new(ms(1000)).with_max_retries(1);
    let mut seq = Sequence::new(params, NoJitter);

    assert_eq!(seq.next(), Some(ms(1000)));
    assert_eq!(seq.next(), None);
    assert_eq!(seq.reason(), Some(Termination::MaxRetries));

    // Once given up, it keeps yielding None without recomputing.
    assert_eq!(seq.next(), None);
    assert_eq!(seq.reason(), Some(Termination::MaxRetries));
}

#[test]
fn sequence_set_params_rekeys() {
    let params = Params::new(ms(1000)).with_max_interval(ms(5000));
    let mut seq = Sequence::new(params, NoJitter);

    let mut checkpoint_rt = None;
    for _ in 0..3 {
        checkpoint_rt = seq.next();
    }
    assert_eq!(checkpoint_rt, Some(ms(4000)));

    seq.set_params(Params::new(ms(1000)).with_max_interval(ms(3000)));
    assert_eq!(seq.next(), Some(ms(3000)));
}

#[test]
fn given_up_sequence_does_not_ask_jitter_and_keeps_state() {
    let params = Params::new(ms(1000)).with_max_retries(0);
    let mut seq = Sequence::new(params, CountingJitter(0));
    assert_eq!(seq.next(), None);
    let state = seq.state();
    assert_eq!(state.retries, 1);
    // Re-keying a given-up sequence does not revive it.
    seq.set_params(Params::new(ms(1000)));
    assert_eq!(seq.next(), None);
    assert_eq!(seq.next(), None);
    assert_eq!(seq.state(), state);
    assert_eq!(seq.reason(), Some(Termination::MaxRetries));
}

#[test]
fn sequence_yields_exactly_max_retries_timeouts() {
    // IRT 1s, MRT 30s, MRC 10: ten timeouts, then MaxRetries.
    let params = Params::new(ms(1000))
        .with_max_interval(ms(30_000))
        .with_max_retries(10);
    let mut seq = Sequence::new(params, NoJitter);
    let mut got = Vec::new();
    for _ in 0..20 {
        match seq.next() {
            Some(rt) => got.push(rt.as_millis()),
            None => break,
        }
    }
    assert_eq!(
        got,
        vec![1000, 2000, 4000, 8000, 16000, 30000, 30000, 30000, 30000, 30000]
    );
    assert_eq!(seq.reason(), Some(Termination::MaxRetries));
    assert_eq!(seq.state().retries, 11);
    assert_eq!(seq.next(), None);
}

#[test]
fn sequence_gives_up_on_max_duration() {
    let params = Params::new(ms(1000)).with_max_duration(ms(5000));
    let mut seq = Sequence::new(params, NoJitter);
    assert_eq!(seq.next(), Some(ms(1000)));
    assert_eq!(seq.next(), Some(ms(2000)));
    assert_eq!(seq.next(), None);
    assert_eq!(seq.reason(), Some(Termination::MaxDuration));
    assert_eq!(seq.state().elapsed, ms(7000));
}

#[test]
fn sequence_is_a_real_iterator() {
    // Successive `next` calls yield the doubling timeouts in order.
    let params = Params::new(ms(100));
    let mut seq = Sequence::new(params, NoJitter);
    let first_three: Vec<Duration> = (0..3).filter_map(|_| seq.next()).collect();
    assert_eq!(first_three, [ms(100), ms(200), ms(400)]);
}

#[test]
fn sequence_state_accumulates_the_timeouts_yielded() {
    let params = Params::new(ms(300)).with_max_interval(ms(1000));
    let mut seq = Sequence::new(params, NoJitter);
    let mut sum = Duration::zero();
    let mut last = Duration::zero();
    for _ in 0..5 {
        let rt = seq.next().expect("unbounded schedule keeps waiting");
        sum = sum.checked_add(rt).unwrap();
        last = rt;
    }
    let state = seq.state();
    assert_eq!(state.retries, 5);
    assert_eq!(state.last_rt, last);
    assert_eq!(state.elapsed, sum);
    assert_eq!(sum, ms(300 + 600 + 1000 + 1000 + 1000));
}
