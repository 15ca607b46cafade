//! A pure, sans-I/O retransmission backoff calculator, generic over
//! protocol: the arithmetic core (doubling with jitter, MRT/MRC/MRD
//! bookkeeping) that a retransmitting protocol wraps. It performs no I/O,
//! scheduling, sleeping or randomness of its own; callers supply the
//! jitter through [`ApplyJitter`].
pub mod duration;
pub mod laws;
pub mod schedule;
pub mod sequence;

pub use duration::Duration;
pub use schedule::{
    advance, compute, select_base, ApplyJitter, NoJitter, Params, State, Step, Termination,
};
pub use sequence::Sequence;
