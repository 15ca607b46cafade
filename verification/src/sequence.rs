//! The [`Sequence`] driver, which threads [`State`] between [`compute`]
//! calls so the caller does not have to. It performs no I/O, scheduling or
//! sleeping itself.
use vstd::prelude::*;

use crate::duration::Duration;
use crate::schedule::{
    compute, opt_nanos, spec_base, spec_step, ApplyJitter, Params, ParamsModel, State, StateModel, Step,
    StepModel, Termination,
};

verus! {

/// Mathematical model of a [`Sequence`]: its parameters, the state after
/// every completed step, and why it stopped, once it has.
pub struct SequenceModel {
    pub params: ParamsModel,
    pub state: StateModel,
    pub reason: Option<Termination>,
}

/// One `next` call on a sequence modelled by `m`, where the jitter yields
/// the timeout `rt`: the new model and the timeout to wait, if any. A
/// sequence that has given up stays as it is and yields nothing.
pub open spec fn spec_sequence_next(m: SequenceModel, rt: nat) -> (SequenceModel, Option<nat>) {
    if m.reason is Some {
        (m, None)
    } else {
        match spec_step(m.params, m.state, rt) {
            StepModel::Wait { rt, state } => (SequenceModel { state, ..m }, Some(rt)),
            StepModel::GiveUp { reason, state } => (
                SequenceModel { state, reason: Some(reason), ..m },
                None,
            ),
        }
    }
}

/// Drives a retransmission schedule: each [`next`](Sequence::next) call is
/// one [`compute`] call, yielding `Some(rt)` to wait and retransmit, or
/// `None` once the schedule has given up (see [`reason`](Sequence::reason)).
pub struct Sequence<J> {
    params: Params,
    state: State,
    jitter: J,
    reason: Option<Termination>,
}

impl<J> View for Sequence<J> {
    type V = SequenceModel;

    closed spec fn view(&self) -> SequenceModel {
        SequenceModel { params: self.params@, state: self.state@, reason: self.reason }
    }
}

impl<J> Sequence<J> {
    /// The jitter that the sequence asks for each timeout.
    pub closed spec fn jitter_source(&self) -> J {
        self.jitter
    }
}

impl<J: ApplyJitter> Sequence<J> {
    /// Returns a `Sequence` starting from the initial [`State`], ready for
    /// its first `next` call.
    pub fn new(params: Params, jitter: J) -> (s: Self)
        ensures
            s@ == (SequenceModel {
                params: params@,
                state: crate::schedule::initial_state(),
                reason: None,
            }),
            s.jitter_source() == jitter,
    {
        Sequence { params, state: State::default(), jitter, reason: None }
    }

    /// The current [`State`], reflecting every completed step so far.
    pub fn state(&self) -> (s: State)
        ensures
            s@ == self@.state,
    {
        self.state
    }

    /// Why iteration stopped, once it has; `None` until a step gives up.
    pub fn reason(&self) -> (r: Option<Termination>)
        ensures
            r == self@.reason,
    {
        self.reason
    }

    /// Re-keys the schedule for subsequent steps. The accumulated
    /// [`State`] carries forward unchanged, and a `Sequence` that has
    /// already given up stays given up.
    pub fn set_params(&mut self, params: Params)
        ensures
            final(self)@ == (SequenceModel { params: params@, ..old(self)@ }),
            final(self).jitter_source() == old(self).jitter_source(),
    {
        self.params = params;
    }

    /// Performs the next step: `None` without computing anything (nor
    /// asking the jitter) once the schedule has given up; otherwise one
    /// [`compute`] call, which asks the jitter once for the base interval
    /// of the current parameters and state and whose new state is kept,
    /// yielding its timeout to wait or, where it gives up, recording the
    /// reason and yielding `None`. Whatever timeout the
    /// jitter produces is the one the new state records as `last_rt`.
    pub fn next(&mut self) -> (r: Option<Duration>)
        ensures
            (final(self)@, opt_nanos(r)) == spec_sequence_next(
                old(self)@,
                final(self)@.state.last_rt,
            ),
            old(self)@.reason is Some ==> final(self).jitter_source() == old(
                self,
            ).jitter_source(),
            old(self)@.reason is None ==> old(self).jitter_source().jittered(
                spec_base(old(self)@.params, old(self)@.state),
                final(self)@.state.last_rt,
                final(self).jitter_source(),
            ),
    {
        if self.reason.is_some() {
            return None;
        }
        match compute(&self.params, self.state, &mut self.jitter) {
            Step::Wait { rt, state } => {
                self.state = state;
                Some(rt)
            },
            Step::GiveUp { reason, state } => {
                self.state = state;
                self.reason = Some(reason);
                None
            },
        }
    }
}

} // verus!
