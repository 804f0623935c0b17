# executor

The decisions of an executor: the agent between a consensus engine and an
execution layer. It delivers finalized and notarized blocks, moves the
forkchoice, answers verifications, and starts builds.

- `src/` is the library, verified with Verus. It holds no I/O. `actor` is the
  executor's state, and each of its methods takes what happened (`run::Event`)
  or starts what is due (`state::Scheduled`). `state` is the mathematical model
  of that state, over which the contracts are stated. `laws` proves what holds
  of every run.
- `app/` makes the calls: it runs timers and fetches, talks to the execution
  layer, and hands the library what came back.
- `tests/` runs single decisions, and whole scenarios against a fake execution
  layer in virtual time.

One thing is trusted without proof: that `Arc::clone` gives a pointer to the
same value.
