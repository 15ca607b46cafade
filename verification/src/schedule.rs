//! The retransmission schedule: parameters, carried state, and the
//! single-step computation that doubles the previous timeout, caps it,
//! applies jitter, and decides whether to give up.
use vstd::prelude::*;

use crate::duration::{saturate, Duration, MAX_NANOS};

verus! {

broadcast use Duration::lemma_view_injective;

/// Fixed factor by which each retransmission timeout grows over the
/// previous one, before capping and jitter.
pub const SCALE_FACTOR: u32 = 2;

/// Describes an immutable retransmission schedule.
///
/// Pass a new `Params` to [`compute`] to re-key mid-sequence (e.g. when a
/// server advertises a new MRT); [`State`] carries forward unchanged.
#[derive(Debug, Clone, Copy, PartialEq, Eq, Structural)]
pub struct Params {
    /// Nominal first retransmission timeout (IRT), used as the base in the
    /// first `compute` call.
    pub initial_rt: Duration,
    /// Upper bound on the pre-jitter base interval (MRT). `None` means
    /// unbounded.
    pub max_interval: Option<Duration>,
    /// Give up once this many retransmissions have been scheduled (MRC).
    /// `None` means unbounded; `Some(0)` permits no retransmissions.
    pub max_retries: Option<u64>,
    /// Give up once cumulative scheduled elapsed time would exceed this
    /// (MRD). `None` means unbounded.
    pub max_duration: Option<Duration>,
}

/// History carried between [`compute`] calls. The [`Default`] value is
/// the initial state; callers may construct states freely.
#[derive(Debug, Clone, Copy, PartialEq, Eq, Structural)]
pub struct State {
    /// Number of retransmissions scheduled so far; saturates at
    /// `u64::MAX`.
    pub retries: u64,
    /// Most recently computed timeout.
    pub last_rt: Duration,
    /// Sum of all timeouts scheduled so far, saturating at the largest
    /// representable duration.
    pub elapsed: Duration,
}

/// Give-up reasons returned by [`compute`].
#[derive(Debug, Clone, Copy, PartialEq, Eq, Structural)]
#[non_exhaustive]
pub enum Termination {
    /// The configured `max_retries` (MRC) was exhausted.
    MaxRetries,
    /// The configured `max_duration` (MRD) was exceeded.
    MaxDuration,
}

/// The result of a [`compute`] call: either a wait instruction or a
/// terminal give-up signal, carrying the updated [`State`] in both cases.
#[derive(Debug, Clone, Copy, PartialEq, Eq, Structural)]
pub enum Step {
    /// Wait `rt` before retransmitting.
    Wait {
        /// The computed retransmission timeout.
        rt: Duration,
        /// The updated state.
        state: State,
    },
    /// Give up; do not retransmit again.
    GiveUp {
        /// Why the caller should give up.
        reason: Termination,
        /// The updated state.
        state: State,
    },
}

/// Mathematical model of [`Params`]: durations as nanosecond counts.
pub struct ParamsModel {
    pub initial_rt: nat,
    pub max_interval: Option<nat>,
    pub max_retries: Option<nat>,
    pub max_duration: Option<nat>,
}

/// Mathematical model of [`State`]: durations as nanosecond counts.
pub struct StateModel {
    pub retries: nat,
    pub last_rt: nat,
    pub elapsed: nat,
}

/// Mathematical model of [`Step`].
pub enum StepModel {
    Wait { rt: nat, state: StateModel },
    GiveUp { reason: Termination, state: StateModel },
}

/// The nanosecond count of an optional duration.
pub open spec fn opt_nanos(o: Option<Duration>) -> Option<nat> {
    match o {
        Some(d) => Some(d@),
        None => None,
    }
}

impl View for Params {
    type V = ParamsModel;

    open spec fn view(&self) -> ParamsModel {
        ParamsModel {
            initial_rt: self.initial_rt@,
            max_interval: opt_nanos(self.max_interval),
            max_retries: match self.max_retries {
                Some(n) => Some(n as nat),
                None => None,
            },
            max_duration: opt_nanos(self.max_duration),
        }
    }
}

impl View for State {
    type V = StateModel;

    open spec fn view(&self) -> StateModel {
        StateModel { retries: self.retries as nat, last_rt: self.last_rt@, elapsed: self.elapsed@ }
    }
}

impl View for Step {
    type V = StepModel;

    open spec fn view(&self) -> StepModel {
        match *self {
            Step::Wait { rt, state } => StepModel::Wait { rt: rt@, state: state@ },
            Step::GiveUp { reason, state } => StepModel::GiveUp { reason, state: state@ },
        }
    }
}

impl StateModel {
    /// The model of a state that some [`State`] value has.
    pub open spec fn valid(self) -> bool {
        &&& self.retries <= u64::MAX
        &&& self.last_rt <= MAX_NANOS
        &&& self.elapsed <= MAX_NANOS
    }
}

impl ParamsModel {
    /// The model of parameters that some [`Params`] value has.
    pub open spec fn valid(self) -> bool {
        &&& self.initial_rt <= MAX_NANOS
        &&& (self.max_interval matches Some(m) ==> m <= MAX_NANOS)
        &&& (self.max_retries matches Some(n) ==> n <= u64::MAX)
        &&& (self.max_duration matches Some(m) ==> m <= MAX_NANOS)
    }
}

impl StepModel {
    /// The updated state, whatever the variant.
    pub open spec fn state(self) -> StateModel {
        match self {
            StepModel::Wait { state, .. } => state,
            StepModel::GiveUp { state, .. } => state,
        }
    }
}

/// The state before the first `compute` call.
pub open spec fn initial_state() -> StateModel {
    StateModel { retries: 0, last_rt: 0, elapsed: 0 }
}

/// The pre-jitter base interval: the initial timeout on the first call
/// (no retransmission scheduled yet), otherwise twice the previous
/// timeout, saturating, and capped by `max_interval` where one is set.
pub open spec fn spec_base(p: ParamsModel, prev: StateModel) -> nat {
    if prev.retries == 0 {
        p.initial_rt
    } else {
        let candidate = saturate(SCALE_FACTOR * prev.last_rt);
        match p.max_interval {
            Some(m) => if candidate > m {
                m
            } else {
                candidate
            },
            None => candidate,
        }
    }
}

/// The state after scheduling a retransmission with timeout `rt`.
pub open spec fn spec_next_state(prev: StateModel, rt: nat) -> StateModel {
    StateModel {
        retries: if prev.retries < u64::MAX {
            prev.retries + 1
        } else {
            u64::MAX as nat
        },
        last_rt: rt,
        elapsed: saturate(prev.elapsed + rt as int),
    }
}

/// Why a schedule in state `s` gives up, checked in order: too many
/// retransmissions, then too much scheduled time.
pub open spec fn spec_termination(p: ParamsModel, s: StateModel) -> Option<Termination> {
    if p.max_retries matches Some(mr) && s.retries > mr {
        Some(Termination::MaxRetries)
    } else if p.max_duration matches Some(md) && s.elapsed > md {
        Some(Termination::MaxDuration)
    } else {
        None
    }
}

/// One computation step, given the jittered timeout `rt`: the new state,
/// and a give-up signal where it breaks a bound, else a wait for `rt`.
pub open spec fn spec_step(p: ParamsModel, prev: StateModel, rt: nat) -> StepModel {
    let s = spec_next_state(prev, rt);
    match spec_termination(p, s) {
        Some(reason) => StepModel::GiveUp { reason, state: s },
        None => StepModel::Wait { rt, state: s },
    }
}

/// Turns the pre-jitter base interval into the retransmission timeout
/// actually scheduled. The library is agnostic to the distribution;
/// bounds, shape and bias are the implementor's concern.
pub trait ApplyJitter: Sized {
    /// Holds where this jitter, asked for the pre-jitter interval `base`
    /// (in nanoseconds), may answer the timeout `rt` and become `next`. A
    /// jitter that says nothing of itself may answer anything.
    open spec fn jittered(&self, base: nat, rt: nat, next: Self) -> bool {
        true
    }

    /// Returns the timeout to schedule for the pre-jitter interval `base`.
    fn apply(&mut self, base: Duration) -> (rt: Duration)
        ensures
            old(self).jittered(base@, rt@, *final(self)),
    ;
}

/// No jitter at all: every timeout scheduled is exactly its pre-jitter
/// base interval, giving deterministic doubling.
#[derive(Debug, Clone, Copy, PartialEq, Eq, Structural)]
pub struct NoJitter;

impl ApplyJitter for NoJitter {
    open spec fn jittered(&self, base: nat, rt: nat, next: Self) -> bool {
        rt == base && next == *self
    }

    fn apply(&mut self, base: Duration) -> (rt: Duration) {
        base
    }
}

impl Params {
    /// Creates `Params` with `initial_rt` and every optional bound unset.
    pub fn new(initial_rt: Duration) -> (p: Params)
        ensures
            p.initial_rt == initial_rt,
            p.max_interval is None,
            p.max_retries is None,
            p.max_duration is None,
    {
        Params { initial_rt, max_interval: None, max_retries: None, max_duration: None }
    }

    /// Sets `max_interval` (MRT), the upper bound on the pre-jitter base
    /// interval.
    pub fn with_max_interval(self, max_interval: Duration) -> (p: Params)
        ensures
            p == (Params { max_interval: Some(max_interval), ..self }),
    {
        let mut p = self;
        p.max_interval = Some(max_interval);
        p
    }

    /// Sets `max_retries` (MRC), the retry budget; `0` permits no
    /// retransmissions at all.
    pub fn with_max_retries(self, max_retries: u64) -> (p: Params)
        ensures
            p == (Params { max_retries: Some(max_retries), ..self }),
    {
        let mut p = self;
        p.max_retries = Some(max_retries);
        p
    }

    /// Sets `max_duration` (MRD), the cumulative scheduled-time budget.
    pub fn with_max_duration(self, max_duration: Duration) -> (p: Params)
        ensures
            p == (Params { max_duration: Some(max_duration), ..self }),
    {
        let mut p = self;
        p.max_duration = Some(max_duration);
        p
    }

    /// Parameters given in whole milliseconds, each optional bound set
    /// only where given.
    pub fn from_millis(
        initial_rt_ms: u64,
        max_interval_ms: Option<u64>,
        max_retries: Option<u64>,
        max_duration_ms: Option<u64>,
    ) -> (p: Params)
        ensures
            p@.initial_rt == initial_rt_ms * crate::duration::NANOS_PER_MILLI,
            p@.max_interval == (match max_interval_ms {
                Some(ms) => Some((ms * crate::duration::NANOS_PER_MILLI) as nat),
                None => None::<nat>,
            }),
            p.max_retries == max_retries,
            p@.max_duration == (match max_duration_ms {
                Some(ms) => Some((ms * crate::duration::NANOS_PER_MILLI) as nat),
                None => None::<nat>,
            }),
    {
        let mut p = Params::new(Duration::from_millis(initial_rt_ms));
        if let Some(ms) = max_interval_ms {
            p = p.with_max_interval(Duration::from_millis(ms));
        }
        if let Some(n) = max_retries {
            p = p.with_max_retries(n);
        }
        if let Some(ms) = max_duration_ms {
            p = p.with_max_duration(Duration::from_millis(ms));
        }
        p
    }
}

impl Default for State {
    /// The initial state: nothing scheduled yet.
    fn default() -> (s: State)
        ensures
            s@ == initial_state(),
    {
        State { retries: 0, last_rt: Duration::zero(), elapsed: Duration::zero() }
    }
}

impl Step {
    /// Returns the updated [`State`], regardless of variant.
    pub fn state(&self) -> (s: State)
        ensures
            s == (match *self {
                Step::Wait { state, .. } => state,
                Step::GiveUp { state, .. } => state,
            }),
            s@ == self@.state(),
    {
        match *self {
            Step::Wait { state, .. } => state,
            Step::GiveUp { state, .. } => state,
        }
    }
}

/// Doubles `d`, saturating at the largest representable duration.
pub fn saturating_double(d: Duration) -> (r: Duration)
    ensures
        r@ == saturate(SCALE_FACTOR * d@),
{
    match d.checked_mul(SCALE_FACTOR) {
        Some(r) => r,
        None => Duration::max_value(),
    }
}

/// Adds `a` and `b`, saturating at the largest representable duration.
pub fn saturating_add(a: Duration, b: Duration) -> (r: Duration)
    ensures
        r@ == saturate(a@ + b@ as int),
{
    match a.checked_add(b) {
        Some(r) => r,
        None => Duration::max_value(),
    }
}

/// The pre-jitter base interval for the step after `prev`.
pub fn select_base(params: &Params, prev: &State) -> (base: Duration)
    ensures
        base@ == spec_base(params@, prev@),
{
    if prev.retries == 0 {
        return params.initial_rt;
    }
    let candidate = saturating_double(prev.last_rt);
    match params.max_interval {
        Some(max_interval) => {
            if candidate.as_nanos() > max_interval.as_nanos() {
                max_interval
            } else {
                candidate
            }
        },
        None => candidate,
    }
}

/// Schedules one retransmission with the already-jittered timeout `rt`:
/// updates the state and checks the bounds against the new state.
pub fn advance(params: &Params, prev: State, rt: Duration) -> (step: Step)
    ensures
        step@ == spec_step(params@, prev@, rt@),
{
    let retries = if prev.retries < u64::MAX {
        prev.retries + 1
    } else {
        u64::MAX
    };
    let new_state = State { retries, last_rt: rt, elapsed: saturating_add(prev.elapsed, rt) };
    if let Some(max_retries) = params.max_retries {
        if new_state.retries > max_retries {
            return Step::GiveUp { reason: Termination::MaxRetries, state: new_state };
        }
    }
    if let Some(max_duration) = params.max_duration {
        if new_state.elapsed.as_nanos() > max_duration.as_nanos() {
            return Step::GiveUp { reason: Termination::MaxDuration, state: new_state };
        }
    }
    Step::Wait { rt, state: new_state }
}

/// Performs one retransmission-timeout computation: selects the base
/// interval, asks `jitter` once to turn it into a timeout, and schedules
/// that. Whatever timeout the jitter returns, the result is the step that
/// schedules it, which the new state records as `last_rt`.
pub fn compute<J: ApplyJitter>(params: &Params, prev: State, jitter: &mut J) -> (step: Step)
    ensures
        old(jitter).jittered(spec_base(params@, prev@), step@.state().last_rt, *final(jitter)),
        step@ == spec_step(params@, prev@, step@.state().last_rt),
{
    let base = select_base(params, &prev);
    let rt = jitter.apply(base);
    advance(params, prev, rt)
}

} // verus!
