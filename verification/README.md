# diffsol (verified core)

Parts of a differential-equation solver stack whose decisions are proved
with Verus:

- `src/error.rs`: classified operator errors (recoverable or fatal, with the
  operator's own error kept as the source) and the error types of the linear
  algebra and non-linear solver layers.
- `src/line_search.rs`: the Newton line searches as state machines (full step,
  and backtracking on the Armijo condition), with proofs of how they react to
  recoverable and fatal operator errors, when they give up, that a failed
  call leaves the point where it was (but for the minimum-step failure), that
  a call evaluates the residual and solves the linear system at most
  `max_iter + 1` times each, and that `n_iters` counts its trials.
- `src/sparsity.rs`: matrix sparsity patterns, their union, and the greedy
  column colouring of Jacobian patterns.
- `src/closure.rs`: shape, statistics and probed sparsity of operators built
  from fallible closures.
- `src/init.rs`: the index logic of the consistent-initial-condition operator
  (algebraic masks over batched vectors, candidate refresh, scatter).
- `src/sparse_lu.rs`: which step of the sparse LU solver may run, and the
  error a step out of order reports.

`app/` holds the floating-point side: error types with their messages,
the line-search loops over vectors, closure evaluation, the
initial-condition residual and Jacobian, and the faer-backed LU solver.
