# libretry

A pure, sans-I/O retransmission backoff calculator whose contracts are
proved.
Each step doubles the previous timeout (starting from an initial one),
caps it by an optional maximum interval, applies caller-supplied jitter,
and gives up once an optional retry count or cumulative-time budget is
exceeded.

- `src/duration.rs`: a bounded, nanosecond-resolution `Duration`.
- `src/schedule.rs`: `Params`, `State`, `Step`, `Termination`, the
  mathematical model of one step, the `ApplyJitter` trait with its
  jitter-free `NoJitter`, and `select_base`, `advance` and `compute`.
- `src/sequence.rs`: `Sequence`, which threads the state between steps.
- `src/laws.rs`: properties proved over the model: monotone elapsed time,
  saturating counts and sums, termination order, exact retry budgets, doubling
  without jitter, and a given-up sequence staying given up.
- `app/`: the `retry` command-line tool and the floating-point jitter
  sources (`JitterSource`, `FixedJitter`, `UniformJitter`), which reach the
  library through its `ApplyJitter` trait.
