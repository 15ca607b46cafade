//! Properties of the schedule that hold for every input and across calls,
//! stated over the models that the operations' contracts use.
use vstd::prelude::*;

use crate::duration::{saturate, MAX_NANOS};
use crate::schedule::{
    initial_state, spec_base, spec_next_state, spec_step, ParamsModel,
    StateModel, StepModel, Termination, SCALE_FACTOR,
};
use crate::sequence::{spec_sequence_next, SequenceModel};

verus! {

/// The state reached from `s` by scheduling the timeouts `rts` one after
/// another with parameters `p`.
pub open spec fn run_state(p: ParamsModel, s: StateModel, rts: Seq<nat>) -> StateModel
    decreases rts.len(),
{
    if rts.len() == 0 {
        s
    } else {
        spec_step(p, run_state(p, s, rts.drop_last()), rts.last()).state()
    }
}

/// The `k`-th step (counting from zero) of scheduling `rts` from `s`.
pub open spec fn run_step(p: ParamsModel, s: StateModel, rts: Seq<nat>, k: int) -> StepModel {
    spec_step(p, run_state(p, s, rts.take(k)), rts[k])
}

/// The sequence model reached from `m` by `next` calls in which the jitter
/// yields the timeouts `rts`.
pub open spec fn sequence_run(m: SequenceModel, rts: Seq<nat>) -> SequenceModel
    decreases rts.len(),
{
    if rts.len() == 0 {
        m
    } else {
        spec_sequence_next(sequence_run(m, rts.drop_last()), rts.last()).0
    }
}

/// What the `k`-th `next` call (counting from zero) yields in that run.
pub open spec fn sequence_output(m: SequenceModel, rts: Seq<nat>, k: int) -> Option<nat> {
    spec_sequence_next(sequence_run(m, rts.take(k)), rts[k]).1
}

/// `x` doubled `k` times, without saturation.
pub open spec fn doubled(x: nat, k: nat) -> nat
    decreases k,
{
    if k == 0 {
        x
    } else {
        (SCALE_FACTOR * doubled(x, (k - 1) as nat)) as nat
    }
}

/// `x` saturated at the largest duration and capped by `max_interval`.
pub open spec fn capped(p: ParamsModel, x: int) -> nat {
    match p.max_interval {
        Some(m) => if saturate(x) > m {
            m
        } else {
            saturate(x)
        },
        None => saturate(x),
    }
}

/// The state after `k` steps from the initial state in which every
/// timeout scheduled equals its pre-jitter base interval.
pub open spec fn unjittered_state(p: ParamsModel, k: nat) -> StateModel
    decreases k,
{
    if k == 0 {
        initial_state()
    } else {
        let s = unjittered_state(p, (k - 1) as nat);
        spec_step(p, s, spec_base(p, s)).state()
    }
}

/// The first step uses the initial timeout as its base, whatever `last_rt`
/// holds: a first call is recognised by `retries == 0` alone, and any
/// state with `retries > 0` doubles its `last_rt`, even a zero one.
pub proof fn law_first_call_uses_initial_rt(p: ParamsModel, s: StateModel)
    ensures
        s.retries == 0 ==> spec_base(p, s) == p.initial_rt,
        s.retries > 0 && s.last_rt == 0 ==> spec_base(p, s) == 0,
{
}

/// The base interval, spelled out over its inputs: the initial timeout
/// while no retransmission has been scheduled; afterwards the smaller of
/// twice the previous timeout and the largest duration, and of that and
/// `max_interval` where one is set.
pub proof fn law_base_outcome(p: ParamsModel, s: StateModel)
    ensures
        s.retries == 0 ==> spec_base(p, s) == p.initial_rt,
        s.retries > 0 ==> ({
            let doubled_rt: int = if 2 * s.last_rt <= MAX_NANOS {
                2 * s.last_rt as int
            } else {
                MAX_NANOS as int
            };
            spec_base(p, s) == match p.max_interval {
                Some(m) => if doubled_rt <= m {
                    doubled_rt
                } else {
                    m as int
                },
                None => doubled_rt,
            }
        }),
{
}

/// After the first step the base interval never exceeds `max_interval`,
/// nor the largest duration.
pub proof fn law_base_within_cap(p: ParamsModel, s: StateModel)
    requires
        p.valid(),
        s.retries > 0,
    ensures
        p.max_interval matches Some(m) ==> spec_base(p, s) <= m,
        spec_base(p, s) <= MAX_NANOS,
{
}

/// Scheduled elapsed time never decreases from one step to the next.
pub proof fn law_elapsed_never_decreases(p: ParamsModel, s: StateModel, rt: nat)
    requires
        s.valid(),
    ensures
        spec_step(p, s, rt).state().elapsed >= s.elapsed,
{
}

/// Each step counts one more retransmission, saturating at `u64::MAX`
/// instead of overflowing, and records the timeout it scheduled.
pub proof fn law_retries_count_up(p: ParamsModel, s: StateModel, rt: nat)
    requires
        s.valid(),
    ensures
        s.retries < u64::MAX ==> spec_step(p, s, rt).state().retries == s.retries + 1,
        s.retries == u64::MAX ==> spec_step(p, s, rt).state().retries == u64::MAX,
        spec_step(p, s, rt).state().last_rt == rt,
        rt <= MAX_NANOS ==> spec_step(p, s, rt).state().valid(),
{
}

/// Termination is decided against the new state, in order: an exhausted
/// retry budget gives up with `MaxRetries`, even where the time budget is
/// exceeded too; otherwise an exceeded time budget gives up with
/// `MaxDuration`; otherwise the step waits for the timeout it scheduled.
pub proof fn law_termination_order(p: ParamsModel, s: StateModel, rt: nat)
    ensures
        ({
            let n = spec_next_state(s, rt);
            let over_retries = p.max_retries matches Some(mr) && n.retries > mr;
            let over_duration = p.max_duration matches Some(md) && n.elapsed > md;
            &&& over_retries ==> spec_step(p, s, rt) == (StepModel::GiveUp {
                reason: Termination::MaxRetries,
                state: n,
            })
            &&& !over_retries && over_duration ==> spec_step(p, s, rt) == (StepModel::GiveUp {
                reason: Termination::MaxDuration,
                state: n,
            })
            &&& !over_retries && !over_duration ==> spec_step(p, s, rt) == (StepModel::Wait {
                rt,
                state: n,
            })
        }),
{
}

/// One step, spelled out over its inputs: it counts one more
/// retransmission (saturating at `u64::MAX`), records `rt` as `last_rt`,
/// adds `rt` to `elapsed` (saturating at the largest duration), and then
/// gives up with `MaxRetries` exactly when the new count exceeds a set
/// retry budget, with `MaxDuration` exactly when it does not but the new
/// elapsed time exceeds a set time budget, and otherwise waits for `rt`.
pub proof fn law_step_outcome(p: ParamsModel, s: StateModel, rt: nat)
    ensures
        ({
            let retries = if s.retries < u64::MAX {
                s.retries + 1
            } else {
                u64::MAX as nat
            };
            let elapsed = if s.elapsed + rt <= MAX_NANOS {
                s.elapsed + rt
            } else {
                MAX_NANOS as nat
            };
            let over_retries = p.max_retries matches Some(mr) && retries > mr;
            let over_duration = p.max_duration matches Some(md) && elapsed > md;
            let step = spec_step(p, s, rt);
            &&& step.state() == (StateModel { retries, last_rt: rt, elapsed })
            &&& (step matches StepModel::GiveUp { reason: Termination::MaxRetries, .. })
                <==> over_retries
            &&& (step matches StepModel::GiveUp { reason: Termination::MaxDuration, .. }) <==> (
            !over_retries && over_duration)
            &&& (step matches StepModel::Wait { rt: w, .. } && w == rt) <==> (!over_retries
                && !over_duration)
        }),
{
}

/// With `max_retries` of zero, no retransmission is ever permitted: the
/// very first step gives up with `MaxRetries`, and so does every other.
pub proof fn law_zero_max_retries_gives_up_at_once(p: ParamsModel, s: StateModel, rt: nat)
    requires
        p.max_retries == Some(0nat),
    ensures
        spec_step(p, s, rt) matches StepModel::GiveUp { reason: Termination::MaxRetries, .. },
{
}

/// A first timeout that alone exceeds `max_duration` gives up at once with
/// `MaxDuration`, unless the retry budget is zero.
pub proof fn law_first_rt_over_budget_gives_up(p: ParamsModel, rt: nat)
    requires
        p.max_retries is None || p.max_retries.unwrap() >= 1,
        p.max_duration matches Some(md) && rt > md,
        rt <= MAX_NANOS,
    ensures
        spec_step(p, initial_state(), rt) matches StepModel::GiveUp {
            reason: Termination::MaxDuration,
            ..
        },
{
}

/// Counting steps from any state: after `rts`, `retries` has grown by the
/// number of steps, saturating at `u64::MAX`.
pub proof fn lemma_run_retries(p: ParamsModel, s: StateModel, rts: Seq<nat>)
    requires
        s.valid(),
    ensures
        run_state(p, s, rts).retries == if s.retries + rts.len() <= u64::MAX {
            s.retries + rts.len()
        } else {
            u64::MAX as nat
        },
    decreases rts.len(),
{
    if rts.len() > 0 {
        lemma_run_retries(p, s, rts.drop_last());
    }
}

/// The sum of the timeouts `rts`, without saturation.
pub open spec fn total(rts: Seq<nat>) -> nat
    decreases rts.len(),
{
    if rts.len() == 0 {
        0
    } else {
        total(rts.drop_last()) + rts.last()
    }
}

/// Scheduling the timeouts `rts` from any state: `retries` grows by the
/// number of steps (saturating at `u64::MAX`), `elapsed` grows by their
/// sum (saturating at the largest duration), and `last_rt` is the last of
/// them, whatever the parameters and whether the steps wait or give up.
pub proof fn law_run_accumulates(p: ParamsModel, s: StateModel, rts: Seq<nat>)
    requires
        s.valid(),
    ensures
        run_state(p, s, rts).retries == if s.retries + rts.len() <= u64::MAX {
            s.retries + rts.len()
        } else {
            u64::MAX as nat
        },
        run_state(p, s, rts).elapsed == saturate(s.elapsed + total(rts) as int),
        rts.len() > 0 ==> run_state(p, s, rts).last_rt == rts.last(),
    decreases rts.len(),
{
    lemma_run_retries(p, s, rts);
    if rts.len() > 0 {
        law_run_accumulates(p, s, rts.drop_last());
    }
}

/// With a retry budget of `n` and no time budget, whatever the timeouts,
/// the first `n` steps from the initial state wait and step `n + 1` gives
/// up with `MaxRetries`. (A budget of `u64::MAX` is never exhausted, since
/// the count saturates there.)
pub proof fn law_gives_up_after_max_retries(p: ParamsModel, rts: Seq<nat>, n: nat)
    requires
        p.max_retries == Some(n),
        n < u64::MAX,
        p.max_duration is None,
        rts.len() == n + 1,
    ensures
        forall|k: int| 0 <= k < n ==> #[trigger] run_step(p, initial_state(), rts, k) is Wait,
        run_step(p, initial_state(), rts, n as int) matches StepModel::GiveUp {
            reason: Termination::MaxRetries,
            ..
        },
{
    assert forall|k: int| 0 <= k < n implies #[trigger] run_step(
        p,
        initial_state(),
        rts,
        k,
    ) is Wait by {
        lemma_run_retries(p, initial_state(), rts.take(k));
    }
    lemma_run_retries(p, initial_state(), rts.take(n as int));
}

/// A sequence that has given up stays given up: `next` changes nothing and
/// yields nothing, whatever the jitter.
pub proof fn law_given_up_stays_given_up(m: SequenceModel, rt: nat)
    requires
        m.reason is Some,
    ensures
        spec_sequence_next(m, rt) == (m, None::<nat>),
{
}

/// One `next` call on a sequence that has not given up, spelled out over
/// its inputs: the parameters stay, the state counts one more
/// retransmission (saturating), records `rt` and adds it to `elapsed`
/// (saturating); the sequence then records `MaxRetries` exactly when the
/// new count exceeds a set retry budget, `MaxDuration` exactly when it does
/// not but the new elapsed time exceeds a set time budget, and otherwise
/// records no reason and yields `rt`. It yields nothing exactly when it
/// records a reason.
pub proof fn law_sequence_next_outcome(m: SequenceModel, rt: nat)
    requires
        m.reason is None,
    ensures
        ({
            let retries = if m.state.retries < u64::MAX {
                m.state.retries + 1
            } else {
                u64::MAX as nat
            };
            let elapsed = if m.state.elapsed + rt <= MAX_NANOS {
                m.state.elapsed + rt
            } else {
                MAX_NANOS as nat
            };
            let over_retries = m.params.max_retries matches Some(mr) && retries > mr;
            let over_duration = m.params.max_duration matches Some(md) && elapsed > md;
            let next = spec_sequence_next(m, rt);
            &&& next.0.params == m.params
            &&& next.0.state == (StateModel { retries, last_rt: rt, elapsed })
            &&& (next.0.reason == Some(Termination::MaxRetries)) <==> over_retries
            &&& (next.0.reason == Some(Termination::MaxDuration)) <==> (!over_retries
                && over_duration)
            &&& next.0.reason is None <==> (!over_retries && !over_duration)
            &&& next.1 == (if next.0.reason is None {
                Some(rt)
            } else {
                None::<nat>
            })
        }),
{
}

/// Once `next` has yielded nothing, the sequence has given up, and every
/// later `next` yields nothing and leaves it unchanged.
pub proof fn law_stopped_sequence_stays_stopped(m: SequenceModel, rt1: nat, rt2: nat)
    requires
        spec_sequence_next(m, rt1).1 is None,
    ensures
        spec_sequence_next(m, rt1).0.reason is Some,
        spec_sequence_next(spec_sequence_next(m, rt1).0, rt2) == (
            spec_sequence_next(m, rt1).0,
            None::<nat>,
        ),
{
}

/// A sequence only threads state between computation steps: while it has
/// not given up, its next step is the one `compute` takes from its current
/// state under its current parameters, so parameters set with
/// `set_params` take effect on that very step and the state carries over.
pub proof fn law_sequence_steps_like_compute(m: SequenceModel, p: ParamsModel, rt: nat)
    requires
        m.reason is None,
    ensures
        spec_sequence_next(m, rt).0.state == spec_step(m.params, m.state, rt).state(),
        spec_sequence_next(SequenceModel { params: p, ..m }, rt).0.state == spec_step(
            p,
            m.state,
            rt,
        ).state(),
        spec_sequence_next(m, rt).1 == (match spec_step(m.params, m.state, rt) {
            StepModel::Wait { rt, .. } => Some(rt),
            StepModel::GiveUp { .. } => None::<nat>,
        }),
        spec_sequence_next(m, rt).0.reason == (match spec_step(m.params, m.state, rt) {
            StepModel::Wait { .. } => None::<Termination>,
            StepModel::GiveUp { reason, .. } => Some(reason),
        }),
{
}

/// While every `next` call has yielded a timeout, a sequence has not
/// given up, keeps its parameters, and holds the state that scheduling
/// those timeouts from its starting state reaches.
proof fn lemma_sequence_run_while_waiting(m: SequenceModel, rts: Seq<nat>)
    requires
        m.reason is None,
        forall|k: int| 0 <= k < rts.len() ==> #[trigger] sequence_output(m, rts, k) is Some,
    ensures
        sequence_run(m, rts).reason is None,
        sequence_run(m, rts).params == m.params,
        sequence_run(m, rts).state == run_state(m.params, m.state, rts),
    decreases rts.len(),
{
    if rts.len() > 0 {
        let prefix = rts.drop_last();
        assert forall|k: int| 0 <= k < prefix.len() implies #[trigger] sequence_output(
            m,
            prefix,
            k,
        ) is Some by {
            assert(prefix.take(k) =~= rts.take(k));
            assert(sequence_output(m, rts, k) is Some);
        }
        lemma_sequence_run_while_waiting(m, prefix);
        assert(rts.take(prefix.len() as int) =~= prefix);
        assert(sequence_output(m, rts, prefix.len() as int) is Some);
    }
}

/// A fresh sequence whose `next` calls have all yielded timeouts `rts`
/// has counted one retransmission per call, holds the last of them as
/// `last_rt`, and has accumulated their sum, saturated at the largest
/// duration, as `elapsed`.
pub proof fn law_sequence_state_after_timeouts(m: SequenceModel, rts: Seq<nat>)
    requires
        m.state == initial_state(),
        m.reason is None,
        rts.len() > 0,
        forall|k: int| 0 <= k < rts.len() ==> #[trigger] sequence_output(m, rts, k) is Some,
    ensures
        sequence_run(m, rts).reason is None,
        sequence_run(m, rts).state.retries == if rts.len() <= u64::MAX {
            rts.len()
        } else {
            u64::MAX as nat
        },
        sequence_run(m, rts).state.last_rt == rts.last(),
        sequence_run(m, rts).state.elapsed == saturate(total(rts) as int),
        forall|k: int| 0 <= k < rts.len() ==> #[trigger] sequence_output(m, rts, k) == Some(rts[k]),
{
    lemma_sequence_run_while_waiting(m, rts);
    law_run_accumulates(m.params, m.state, rts);
    assert forall|k: int| 0 <= k < rts.len() implies #[trigger] sequence_output(m, rts, k) == Some(
        rts[k],
    ) by {
        assert(sequence_output(m, rts, k) is Some);
    }
}

/// Where the run of `next` calls stands after `rts` from a fresh sequence
/// with retry budget `n` and no time budget.
proof fn lemma_sequence_run_counts(m: SequenceModel, rts: Seq<nat>, n: nat)
    requires
        m.params.max_retries == Some(n),
        n < u64::MAX,
        m.params.max_duration is None,
        m.state == initial_state(),
        m.reason is None,
    ensures
        sequence_run(m, rts).params == m.params,
        rts.len() <= n ==> sequence_run(m, rts).reason is None && sequence_run(m, rts).state.retries
            == rts.len(),
        rts.len() > n ==> sequence_run(m, rts).reason == Some(Termination::MaxRetries)
            && sequence_run(m, rts).state.retries == n + 1,
    decreases rts.len(),
{
    if rts.len() > 0 {
        lemma_sequence_run_counts(m, rts.drop_last(), n);
    }
}

/// A fresh sequence with retry budget `n` and no time budget yields a
/// timeout on exactly its first `n` `next` calls, whatever the jitter, and
/// nothing after. After `k <= n` calls it has counted `k` retransmissions;
/// once past them it reports `MaxRetries` with the count frozen at `n + 1`.
pub proof fn law_sequence_yields_max_retries_timeouts(m: SequenceModel, rts: Seq<nat>, n: nat)
    requires
        m.params.max_retries == Some(n),
        n < u64::MAX,
        m.params.max_duration is None,
        m.state == initial_state(),
        m.reason is None,
    ensures
        forall|k: int|
            0 <= k < rts.len() ==> (#[trigger] sequence_output(m, rts, k) is Some <==> k < n),
        rts.len() <= n ==> sequence_run(m, rts).reason is None && sequence_run(m, rts).state.retries
            == rts.len(),
        rts.len() > n ==> sequence_run(m, rts).reason == Some(Termination::MaxRetries)
            && sequence_run(m, rts).state.retries == n + 1,
{
    assert forall|k: int| 0 <= k < rts.len() implies (#[trigger] sequence_output(m, rts, k)
        is Some <==> k < n) by {
        lemma_sequence_run_counts(m, rts.take(k), n);
    }
    lemma_sequence_run_counts(m, rts, n);
}

/// Doubling a capped interval and capping again is capping the doubled
/// interval.
proof fn lemma_capped_double(p: ParamsModel, d: nat)
    requires
        p.valid(),
    ensures
        capped(p, SCALE_FACTOR * capped(p, d as int)) == capped(p, SCALE_FACTOR * d),
{
}

/// Without jitter the timeouts double: the first is the initial timeout,
/// and the `k`-th (for `k >= 2`) is the initial timeout doubled `k - 1`
/// times, saturated at the largest duration and capped by `max_interval`.
pub proof fn law_unjittered_timeouts_double(p: ParamsModel, k: nat)
    requires
        p.valid(),
        k >= 1,
    ensures
        k == 1 ==> unjittered_state(p, k).last_rt == p.initial_rt,
        k >= 2 ==> unjittered_state(p, k).last_rt == capped(
            p,
            doubled(p.initial_rt, (k - 1) as nat) as int,
        ),
        unjittered_state(p, k).retries == if k <= u64::MAX {
            k
        } else {
            u64::MAX as nat
        },
    decreases k,
{
    let prev = unjittered_state(p, (k - 1) as nat);
    assert(unjittered_state(p, k) == spec_step(p, prev, spec_base(p, prev)).state());
    if k == 1 {
        assert(prev == initial_state());
    } else {
        law_unjittered_timeouts_double(p, (k - 1) as nat);
        assert(prev.retries >= 1);
        assert(spec_base(p, prev) == capped(p, SCALE_FACTOR * prev.last_rt));
        let d = doubled(p.initial_rt, (k - 2) as nat);
        assert(doubled(p.initial_rt, (k - 1) as nat) == SCALE_FACTOR * d);
        if k == 2 {
            assert(d == p.initial_rt);
        } else {
            assert(prev.last_rt == capped(p, d as int));
            lemma_capped_double(p, d);
        }
    }
}

} // verus!
