//! Control flow of the Newton line searches.
//!
//! A line search alternates work on vectors (evaluating the residual, solving
//! the Newton system, measuring norms, moving the point) with decisions.  The
//! decisions live here as a state machine: a run is started, every piece of
//! outside work is requested by a [`LineSearchAction`], and its outcome is
//! handed back as a [`LineSearchEvent`].  The machine ends with
//! [`LineSearchAction::Finish`], which says what becomes of the point and what
//! the line search returns.
//!
//! The arithmetic on step lengths is done by the caller, who reports the two
//! comparisons that the backtracking search decides on: whether the trial
//! step length fell below the minimum step, and whether the trial point
//! satisfied the sufficient-decrease (Armijo) condition.
use vstd::prelude::*;
use crate::error::{NlError, NonLinearSolverError};

verus! {

/// Outcome of a convergence test on the norm of a Newton step.
#[derive(Clone, Copy, Debug, PartialEq, Eq, Structural)]
pub enum ConvergenceStatus {
    Converged,
    Diverged,
    Continue,
    MaximumIterations,
}

/// What becomes of the current point when a line search finishes.
#[derive(Clone, Copy, Debug, PartialEq, Eq, Structural)]
pub enum PointUpdate {
    /// The point stays as it is.
    Keep,
    /// The full Newton step is subtracted from the point.
    FullStep,
    /// The point goes back to where backtracking started.
    Restore,
}

/// Work that a line search run asks its caller to perform next.
#[derive(Debug)]
pub enum LineSearchAction<S> {
    /// Evaluate the residual at the current point into the step vector;
    /// answer with [`LineSearchEvent::Evaluated`].
    EvaluateResidual,
    /// Solve the Newton system in place on the step vector;
    /// answer with [`LineSearchEvent::Solved`].
    SolveLinear,
    /// Record the norm of the step vector and test it for convergence;
    /// answer with [`LineSearchEvent::Status`].
    CheckInitialNorm,
    /// Subtract the full step from the point, measure it and count the
    /// iteration; answer with [`LineSearchEvent::Status`].
    TakeFullStep,
    /// Start a backtracking trial.  On the first trial the point and the step
    /// are saved and the step length is one; on later ones the point is put
    /// back and the step length shrinks.  The point moves to the saved point
    /// minus the step length times the saved step and the residual is
    /// evaluated there; answer with [`LineSearchEvent::TrialEvaluated`].
    Trial { first: bool },
    /// Measure the norm of the solved trial step and test the
    /// sufficient-decrease condition; answer with
    /// [`LineSearchEvent::TrialMeasured`].
    MeasureTrial,
    /// Record the trial norm and test it for convergence;
    /// answer with [`LineSearchEvent::Status`].
    AcceptTrial,
    /// The run is over: update the point as given and return `result`;
    /// `exhausted` tells whether backtracking ran out of trials.
    Finish { point: PointUpdate, result: Result<ConvergenceStatus, NlError<S>>, exhausted: bool },
}

/// Outcome of the work that a [`LineSearchAction`] asked for.
#[derive(Debug)]
pub enum LineSearchEvent<S> {
    /// The residual evaluation returned this.
    Evaluated(Result<(), NlError<S>>),
    /// The linear solve returned this.
    Solved(Result<(), NlError<S>>),
    /// The convergence test rated the norm so.
    Status(ConvergenceStatus),
    /// The trial residual evaluation returned `result`; `below_min_step`
    /// tells whether the trial step length is below the minimum step.
    TrialEvaluated { result: Result<(), NlError<S>>, below_min_step: bool },
    /// Whether the trial point satisfies the sufficient-decrease condition.
    TrialMeasured { sufficient_decrease: bool },
}

/// The point of a run at which the machine waits for an event.
#[derive(Clone, Copy, Debug, PartialEq, Eq, Structural)]
pub enum Stage {
    InitialResidual,
    InitialSolve,
    InitialNorm,
    FullStep,
    TrialResidual,
    TrialSolve,
    TrialMeasure,
    TrialAccept,
    Finished,
}

/// The state of one call of a line search.
#[derive(Debug)]
pub struct LineSearchRun<S> {
    stage: Stage,
    iter: usize,
    below_min_step: bool,
    last_recoverable: Option<NlError<S>>,
}

/// The mathematical state of a run.
pub struct RunState<S> {
    /// Where the run waits.
    pub stage: Stage,
    /// The index of the current backtracking trial.
    pub iter: nat,
    /// Whether the current trial's step length is below the minimum step.
    pub below_min_step: bool,
    /// The last recoverable error met by a trial residual evaluation.
    pub last_recoverable: Option<NlError<S>>,
}

impl<S> View for LineSearchRun<S> {
    type V = RunState<S>;

    closed spec fn view(&self) -> RunState<S> {
        RunState {
            stage: self.stage,
            iter: self.iter as nat,
            below_min_step: self.below_min_step,
            last_recoverable: self.last_recoverable,
        }
    }
}

/// Whether a run waiting at `stage` takes `event` as the answer to its request.
pub open spec fn awaits<S>(stage: Stage, event: LineSearchEvent<S>) -> bool {
    match stage {
        Stage::InitialResidual => event is Evaluated,
        Stage::InitialSolve => event is Solved,
        Stage::TrialSolve => event is Solved,
        Stage::InitialNorm => event is Status,
        Stage::FullStep => event is Status,
        Stage::TrialAccept => event is Status,
        Stage::TrialResidual => event is TrialEvaluated,
        Stage::TrialMeasure => event is TrialMeasured,
        Stage::Finished => false,
    }
}

/// A run in the given stage, at trial `iter`.
pub open spec fn state_at<S>(
    stage: Stage,
    iter: nat,
    below_min_step: bool,
    last_recoverable: Option<NlError<S>>,
) -> RunState<S> {
    RunState { stage, iter, below_min_step, last_recoverable }
}

/// A finished run.
pub open spec fn finished<S>() -> RunState<S> {
    state_at(Stage::Finished, 0, false, None)
}

/// The error with which backtracking fails when it runs out of trials: the
/// last recoverable error if there was one, else the iteration-limit error.
pub open spec fn exhausted_error<S>(last: Option<NlError<S>>) -> NlError<S> {
    match last {
        Some(e) => e,
        None => NlError::NonLinearSolverError(NonLinearSolverError::LinesearchFailedMaxIterations),
    }
}

/// Ends a run with the given point update and result.
pub open spec fn finish<S>(point: PointUpdate, result: Result<ConvergenceStatus, NlError<S>>) -> (
    RunState<S>,
    LineSearchAction<S>,
) {
    (finished(), LineSearchAction::Finish { point, result, exhausted: false })
}

/// Ends a run whose backtracking ran out of trials, with the given point
/// update and the last recoverable error, if any.
pub open spec fn give_up<S>(point: PointUpdate, last: Option<NlError<S>>) -> (
    RunState<S>,
    LineSearchAction<S>,
) {
    (finished(), LineSearchAction::Finish { point, result: Err(exhausted_error(last)), exhausted: true })
}

/// The backtracking loop begins: its first trial, or the failure of a loop
/// without iterations.
pub open spec fn begin_trials<S>(max_iter: usize) -> (RunState<S>, LineSearchAction<S>) {
    if max_iter == 0 {
        give_up(PointUpdate::Keep, None)
    } else {
        (state_at(Stage::TrialResidual, 0, false, None), LineSearchAction::Trial { first: true })
    }
}

/// A trial failed without ending the search: the next trial starts, or, when
/// none is left, the search fails with the point restored.
pub open spec fn next_trial<S>(max_iter: usize, iter: nat, last: Option<NlError<S>>) -> (
    RunState<S>,
    LineSearchAction<S>,
) {
    if iter + 1 < max_iter {
        (state_at(Stage::TrialResidual, iter + 1, false, last), LineSearchAction::Trial { first: false })
    } else {
        give_up(PointUpdate::Restore, last)
    }
}

/// How a backtracking call begins: with the Newton step on the first Newton
/// iteration, else with the backtracking loop at once.
pub open spec fn backtracking_start<S>(max_iter: usize, first_iteration: bool) -> (
    RunState<S>,
    LineSearchAction<S>,
) {
    if first_iteration {
        (state_at(Stage::InitialResidual, 0, false, None), LineSearchAction::EvaluateResidual)
    } else {
        begin_trials(max_iter)
    }
}

/// The number of trials performed so far in a call, after a step that moved
/// the run to `s` with action `a`, when `n_iters` trials had been performed
/// before: a new trial is the one at index `s.iter`.
pub open spec fn trials_recorded<S>(n_iters: nat, s: RunState<S>, a: LineSearchAction<S>) -> nat {
    if a is Trial {
        s.iter + 1
    } else {
        n_iters
    }
}

/// One step of the backtracking search: from the number `n_iters` of trials
/// performed so far, the run state and the event, the new number of trials,
/// run state and action.
pub open spec fn backtracking_next<S>(
    max_iter: usize,
    n_iters: nat,
    run: RunState<S>,
    event: LineSearchEvent<S>,
) -> (nat, RunState<S>, LineSearchAction<S>) {
    let (s, a) = backtracking_step(max_iter, run, event);
    (trials_recorded(n_iters, s, a), s, a)
}

/// One step of the backtracking search: from the run state and the event,
/// the new run state and the action.
pub open spec fn backtracking_step<S>(max_iter: usize, run: RunState<S>, event: LineSearchEvent<S>) -> (
    RunState<S>,
    LineSearchAction<S>,
) {
    match (run.stage, event) {
        (Stage::InitialResidual, LineSearchEvent::Evaluated(r)) => match r {
            Err(e) => finish(PointUpdate::Keep, Err(e)),
            Ok(_) => (state_at(Stage::InitialSolve, run.iter, false, None), LineSearchAction::SolveLinear),
        },
        (Stage::InitialSolve, LineSearchEvent::Solved(r)) => match r {
            Err(e) => finish(PointUpdate::Keep, Err(e)),
            Ok(_) => (state_at(Stage::InitialNorm, run.iter, false, None), LineSearchAction::CheckInitialNorm),
        },
        (Stage::InitialNorm, LineSearchEvent::Status(status)) => {
            if status == ConvergenceStatus::Converged {
                finish(PointUpdate::FullStep, Ok(ConvergenceStatus::Converged))
            } else {
                begin_trials(max_iter)
            }
        },
        (Stage::TrialResidual, LineSearchEvent::TrialEvaluated { result, below_min_step }) => match result {
            Ok(_) => (
                state_at(Stage::TrialSolve, run.iter, below_min_step, run.last_recoverable),
                LineSearchAction::SolveLinear,
            ),
            Err(e) => {
                if !e.is_recoverable_operator_error() || below_min_step {
                    finish(PointUpdate::Restore, Err(e))
                } else {
                    next_trial(max_iter, run.iter, Some(e))
                }
            },
        },
        (Stage::TrialSolve, LineSearchEvent::Solved(r)) => match r {
            Err(e) => finish(PointUpdate::Restore, Err(e)),
            Ok(_) => (
                state_at(Stage::TrialMeasure, run.iter, run.below_min_step, run.last_recoverable),
                LineSearchAction::MeasureTrial,
            ),
        },
        (Stage::TrialMeasure, LineSearchEvent::TrialMeasured { sufficient_decrease }) => {
            if sufficient_decrease {
                (state_at(Stage::TrialAccept, run.iter, false, None), LineSearchAction::AcceptTrial)
            } else if run.below_min_step {
                finish(
                    PointUpdate::Keep,
                    Err(NlError::NonLinearSolverError(NonLinearSolverError::LinesearchFailedMinStep)),
                )
            } else {
                next_trial(max_iter, run.iter, run.last_recoverable)
            }
        },
        (Stage::TrialAccept, LineSearchEvent::Status(status)) => finish(PointUpdate::Keep, Ok(status)),
        _ => (run, LineSearchAction::Finish {
            point: PointUpdate::Keep,
            result: Ok(ConvergenceStatus::Continue),
            exhausted: false,
        }),
    }
}

/// One step of the search without backtracking, which always takes the full
/// Newton step.
pub open spec fn full_step_next<S>(run: RunState<S>, event: LineSearchEvent<S>) -> (
    RunState<S>,
    LineSearchAction<S>,
) {
    match (run.stage, event) {
        (Stage::InitialResidual, LineSearchEvent::Evaluated(r)) => match r {
            Err(e) => finish(PointUpdate::Keep, Err(e)),
            Ok(_) => (state_at(Stage::InitialSolve, 0, false, None), LineSearchAction::SolveLinear),
        },
        (Stage::InitialSolve, LineSearchEvent::Solved(r)) => match r {
            Err(e) => finish(PointUpdate::Keep, Err(e)),
            Ok(_) => (state_at(Stage::FullStep, 0, false, None), LineSearchAction::TakeFullStep),
        },
        (Stage::FullStep, LineSearchEvent::Status(status)) => finish(PointUpdate::Keep, Ok(status)),
        _ => (run, LineSearchAction::Finish { point: PointUpdate::Keep, result: Ok(ConvergenceStatus::Continue), exhausted: false }),
    }
}

impl<S> LineSearchRun<S> {
    fn at(stage: Stage, iter: usize, below_min_step: bool, last_recoverable: Option<NlError<S>>) -> (r: Self)
        ensures
            r@ == state_at(stage, iter as nat, below_min_step, last_recoverable),
    {
        LineSearchRun { stage, iter, below_min_step, last_recoverable }
    }

    /// Ends the run with the given point update and result.
    fn finish(&mut self, point: PointUpdate, result: Result<ConvergenceStatus, NlError<S>>) -> (a:
        LineSearchAction<S>)
        ensures
            (final(self)@, a) == finish(point, result),
    {
        *self = LineSearchRun::at(Stage::Finished, 0, false, None);
        LineSearchAction::Finish { point, result, exhausted: false }
    }

    /// Ends the run because backtracking ran out of trials.
    fn give_up(&mut self, point: PointUpdate, last: Option<NlError<S>>) -> (a: LineSearchAction<S>)
        ensures
            (final(self)@, a) == give_up(point, last),
    {
        let error = match last {
            Some(e) => e,
            None => NlError::NonLinearSolverError(NonLinearSolverError::LinesearchFailedMaxIterations),
        };
        *self = LineSearchRun::at(Stage::Finished, 0, false, None);
        LineSearchAction::Finish { point, result: Err(error), exhausted: true }
    }

    /// The stage at which the run waits.
    pub fn stage(&self) -> (s: Stage)
        ensures
            s == self@.stage,
    {
        self.stage
    }

    /// Whether the run is over.
    pub fn is_finished(&self) -> (b: bool)
        ensures
            b == (self@.stage == Stage::Finished),
    {
        self.stage == Stage::Finished
    }

    /// Whether the run waits for `event`.
    pub fn accepts(&self, event: &LineSearchEvent<S>) -> (b: bool)
        ensures
            b == awaits(self@.stage, *event),
    {
        match self.stage {
            Stage::InitialResidual => matches!(event, LineSearchEvent::Evaluated(_)),
            Stage::InitialSolve => matches!(event, LineSearchEvent::Solved(_)),
            Stage::TrialSolve => matches!(event, LineSearchEvent::Solved(_)),
            Stage::InitialNorm => matches!(event, LineSearchEvent::Status(_)),
            Stage::FullStep => matches!(event, LineSearchEvent::Status(_)),
            Stage::TrialAccept => matches!(event, LineSearchEvent::Status(_)),
            Stage::TrialResidual => matches!(event, LineSearchEvent::TrialEvaluated { .. }),
            Stage::TrialMeasure => matches!(event, LineSearchEvent::TrialMeasured { .. }),
            Stage::Finished => false,
        }
    }
}

/// The line search that takes the full Newton step.
#[derive(Debug, Clone, Copy)]
pub struct NoLineSearch;

impl NoLineSearch {
    /// The line search without parameters.
    pub fn new() -> (s: Self)
        ensures
            s == NoLineSearch,
    {
        NoLineSearch
    }

    /// Start a call: the residual is evaluated first.
    pub fn start<S>(&self) -> (r: (LineSearchRun<S>, LineSearchAction<S>))
        ensures
            r.0@ == state_at::<S>(Stage::InitialResidual, 0, false, None),
            r.1 == LineSearchAction::<S>::EvaluateResidual,
    {
        (LineSearchRun::at(Stage::InitialResidual, 0, false, None), LineSearchAction::EvaluateResidual)
    }

    /// Hand the outcome of the requested work to the run and learn what to do next.
    pub fn advance<S>(&self, run: &mut LineSearchRun<S>, event: LineSearchEvent<S>) -> (a:
        LineSearchAction<S>)
        requires
            awaits(old(run)@.stage, event),
            old(run)@.stage == Stage::InitialResidual || old(run)@.stage == Stage::InitialSolve
                || old(run)@.stage == Stage::FullStep,
        ensures
            (final(run)@, a) == full_step_next(old(run)@, event),
    {
        match event {
            LineSearchEvent::Evaluated(r) => match r {
                Err(e) => run.finish(PointUpdate::Keep, Err(e)),
                Ok(()) => {
                    *run = LineSearchRun::at(Stage::InitialSolve, 0, false, None);
                    LineSearchAction::SolveLinear
                },
            },
            LineSearchEvent::Solved(r) => match r {
                Err(e) => run.finish(PointUpdate::Keep, Err(e)),
                Ok(()) => {
                    *run = LineSearchRun::at(Stage::FullStep, 0, false, None);
                    LineSearchAction::TakeFullStep
                },
            },
            LineSearchEvent::Status(status) => run.finish(PointUpdate::Keep, Ok(status)),
            LineSearchEvent::TrialEvaluated { .. } => run.finish(PointUpdate::Keep, Ok(ConvergenceStatus::Continue)),
            LineSearchEvent::TrialMeasured { .. } => run.finish(PointUpdate::Keep, Ok(ConvergenceStatus::Continue)),
        }
    }

    /// Reset the line search state; there is none.
    pub fn reset(&mut self)
        ensures
            *final(self) == *old(self),
    {
    }
}

/// Backtracking line search on half the squared norm of the residual, after
/// the backtracking line search of the Sundials IDA solver.
///
/// Parameters:
/// - `tau`: step size reduction factor (0 < tau < 1)
/// - `c`: Armijo condition constant (0 < c < 1)
/// - `steptol`: minimum step size
/// - `max_iter`: maximum number of line search iterations, by default 10
/// - `n_iters`: number of line search iterations (trials) performed during the last call
#[derive(Debug, Clone)]
pub struct BacktrackingLineSearch<T> {
    pub tau: T,
    pub c: T,
    pub steptol: T,
    pub max_iter: usize,
    pub n_iters: usize,
}

impl<T> BacktrackingLineSearch<T> {
    /// A line search with the given step parameters, at most ten trials per
    /// call and no trial recorded yet.
    pub fn new(tau: T, c: T, steptol: T) -> (s: Self)
        ensures
            s.tau == tau,
            s.c == c,
            s.steptol == steptol,
            s.max_iter == 10,
            s.n_iters == 0,
    {
        BacktrackingLineSearch { tau, c, steptol, max_iter: 10, n_iters: 0 }
    }

    /// Reset the line search state: no trial recorded.
    pub fn reset(&mut self)
        ensures
            final(self).n_iters == 0,
            final(self).max_iter == old(self).max_iter,
            final(self).tau == old(self).tau,
            final(self).c == old(self).c,
            final(self).steptol == old(self).steptol,
    {
        self.n_iters = 0;
    }

    /// Start a call.  On the first Newton iteration the Newton step is
    /// computed first; otherwise backtracking begins at once from the step
    /// at hand.  The count of trials performed starts anew.
    pub fn start<S>(&mut self, first_iteration: bool) -> (r: (LineSearchRun<S>, LineSearchAction<S>))
        ensures
            (r.0@, r.1) == backtracking_start::<S>(old(self).max_iter, first_iteration),
            final(self).n_iters == (if r.1 is Trial { 1nat } else { 0nat }),
            final(self).max_iter == old(self).max_iter,
            final(self).tau == old(self).tau,
            final(self).c == old(self).c,
            final(self).steptol == old(self).steptol,
    {
        self.n_iters = 0;
        if first_iteration {
            (LineSearchRun::at(Stage::InitialResidual, 0, false, None), LineSearchAction::EvaluateResidual)
        } else {
            let mut run = LineSearchRun::at(Stage::TrialResidual, 0, false, None);
            let a = self.begin_trials(&mut run);
            (run, a)
        }
    }

    fn begin_trials<S>(&mut self, run: &mut LineSearchRun<S>) -> (a: LineSearchAction<S>)
        ensures
            (final(run)@, a) == begin_trials::<S>(old(self).max_iter),
            final(self).n_iters == trials_recorded(old(self).n_iters as nat, final(run)@, a),
            final(self).max_iter == old(self).max_iter,
            final(self).tau == old(self).tau,
            final(self).c == old(self).c,
            final(self).steptol == old(self).steptol,
    {
        if self.max_iter == 0 {
            run.give_up(PointUpdate::Keep, None)
        } else {
            *run = LineSearchRun::at(Stage::TrialResidual, 0, false, None);
            self.n_iters = 1;
            LineSearchAction::Trial { first: true }
        }
    }

    fn next_trial<S>(&mut self, run: &mut LineSearchRun<S>, iter: usize, last: Option<NlError<S>>) -> (a:
        LineSearchAction<S>)
        ensures
            (final(run)@, a) == next_trial(old(self).max_iter, iter as nat, last),
            final(self).n_iters == trials_recorded(old(self).n_iters as nat, final(run)@, a),
            final(self).max_iter == old(self).max_iter,
            final(self).tau == old(self).tau,
            final(self).c == old(self).c,
            final(self).steptol == old(self).steptol,
    {
        if self.max_iter > 0 && iter < self.max_iter - 1 {
            *run = LineSearchRun::at(Stage::TrialResidual, iter + 1, false, last);
            self.n_iters = iter + 2;
            LineSearchAction::Trial { first: false }
        } else {
            run.give_up(PointUpdate::Restore, last)
        }
    }

    /// Hand the outcome of the requested work to the run and learn what to do
    /// next; `n_iters` counts the trials performed in the call.
    pub fn advance<S>(&mut self, run: &mut LineSearchRun<S>, event: LineSearchEvent<S>) -> (a:
        LineSearchAction<S>)
        requires
            awaits(old(run)@.stage, event),
            old(run)@.stage != Stage::FullStep,
        ensures
            (final(self).n_iters as nat, final(run)@, a) == backtracking_next(
                old(self).max_iter,
                old(self).n_iters as nat,
                old(run)@,
                event,
            ),
            final(self).max_iter == old(self).max_iter,
            final(self).tau == old(self).tau,
            final(self).c == old(self).c,
            final(self).steptol == old(self).steptol,
    {
        let stage = run.stage;
        let iter = run.iter;
        match event {
            LineSearchEvent::Evaluated(r) => match r {
                Err(e) => run.finish(PointUpdate::Keep, Err(e)),
                Ok(()) => {
                    *run = LineSearchRun::at(Stage::InitialSolve, iter, false, None);
                    LineSearchAction::SolveLinear
                },
            },
            LineSearchEvent::Solved(r) => {
                if stage == Stage::InitialSolve {
                    match r {
                        Err(e) => run.finish(PointUpdate::Keep, Err(e)),
                        Ok(()) => {
                            *run = LineSearchRun::at(Stage::InitialNorm, iter, false, None);
                            LineSearchAction::CheckInitialNorm
                        },
                    }
                } else {
                    match r {
                        Err(e) => run.finish(PointUpdate::Restore, Err(e)),
                        Ok(()) => {
                            let below = run.below_min_step;
                            let last = run.last_recoverable.take();
                            *run = LineSearchRun::at(Stage::TrialMeasure, iter, below, last);
                            LineSearchAction::MeasureTrial
                        },
                    }
                }
            },
            LineSearchEvent::Status(status) => {
                if stage == Stage::InitialNorm {
                    if status == ConvergenceStatus::Converged {
                        run.finish(PointUpdate::FullStep, Ok(ConvergenceStatus::Converged))
                    } else {
                        self.begin_trials(run)
                    }
                } else {
                    run.finish(PointUpdate::Keep, Ok(status))
                }
            },
            LineSearchEvent::TrialEvaluated { result, below_min_step } => match result {
                Ok(()) => {
                    let last = run.last_recoverable.take();
                    *run = LineSearchRun::at(Stage::TrialSolve, iter, below_min_step, last);
                    LineSearchAction::SolveLinear
                },
                Err(e) => {
                    if !e.is_recoverable() || below_min_step {
                        run.finish(PointUpdate::Restore, Err(e))
                    } else {
                        self.next_trial(run, iter, Some(e))
                    }
                },
            },
            LineSearchEvent::TrialMeasured { sufficient_decrease } => {
                if sufficient_decrease {
                    *run = LineSearchRun::at(Stage::TrialAccept, iter, false, None);
                    LineSearchAction::AcceptTrial
                } else if run.below_min_step {
                    run.finish(
                        PointUpdate::Keep,
                        Err(NlError::NonLinearSolverError(NonLinearSolverError::LinesearchFailedMinStep)),
                    )
                } else {
                    let last = run.last_recoverable.take();
                    self.next_trial(run, iter, last)
                }
            },
        }
    }
}

/// Whether the run's trial index is in range for its stage.
pub open spec fn run_wf<S>(max_iter: usize, run: RunState<S>) -> bool {
    match run.stage {
        Stage::TrialResidual => run.iter < max_iter,
        Stage::TrialSolve => run.iter < max_iter,
        Stage::TrialMeasure => run.iter < max_iter,
        _ => true,
    }
}

/// A measure of the work left in a run.
pub open spec fn run_measure<S>(max_iter: usize, run: RunState<S>) -> int {
    match run.stage {
        Stage::InitialResidual => 4 * max_iter + 7,
        Stage::InitialSolve => 4 * max_iter + 6,
        Stage::InitialNorm => 4 * max_iter + 5,
        Stage::TrialResidual => 4 * (max_iter - run.iter) + 1,
        Stage::TrialSolve => 4 * (max_iter - run.iter),
        Stage::TrialMeasure => 4 * (max_iter - run.iter) - 1,
        Stage::TrialAccept => 1,
        Stage::FullStep => 1,
        Stage::Finished => 0,
    }
}

/// How many more trial points a run may still ask to evaluate, besides the
/// evaluation it waits for.
pub open spec fn trials_left<S>(max_iter: usize, run: RunState<S>) -> int {
    match run.stage {
        Stage::InitialResidual => max_iter as int,
        Stage::InitialSolve => max_iter as int,
        Stage::InitialNorm => max_iter as int,
        Stage::TrialResidual => max_iter - run.iter - 1,
        Stage::TrialSolve => max_iter - run.iter - 1,
        Stage::TrialMeasure => max_iter - run.iter - 1,
        _ => 0,
    }
}

/// How many more linear solves a run may still ask for, besides the solve
/// it waits for.
pub open spec fn solves_left<S>(max_iter: usize, run: RunState<S>) -> int {
    match run.stage {
        Stage::InitialResidual => max_iter + 1,
        Stage::InitialSolve => max_iter as int,
        Stage::InitialNorm => max_iter as int,
        Stage::TrialResidual => max_iter - run.iter,
        Stage::TrialSolve => max_iter - run.iter - 1,
        Stage::TrialMeasure => max_iter - run.iter - 1,
        _ => 0,
    }
}

/// Whether a run takes `events[0]` as its next event.
pub open spec fn takes_next<S>(run: RunState<S>, events: Seq<LineSearchEvent<S>>) -> bool {
    events.len() > 0 && awaits(run.stage, events[0]) && run.stage != Stage::FullStep
}

/// The number of trial points that a backtracking run asks to evaluate
/// while it is fed `events` in turn, up to the first event that it does not
/// wait for.
pub open spec fn trial_count<S>(max_iter: usize, run: RunState<S>, events: Seq<LineSearchEvent<S>>) -> nat
    decreases events.len(),
{
    if !takes_next(run, events) {
        0
    } else {
        let (s, a) = backtracking_step(max_iter, run, events[0]);
        (if a is Trial { 1nat } else { 0nat }) + trial_count(max_iter, s, events.drop_first())
    }
}

/// The number of linear solves that a backtracking run asks for while it is
/// fed `events` in turn, up to the first event that it does not wait for.
pub open spec fn solve_count<S>(max_iter: usize, run: RunState<S>, events: Seq<LineSearchEvent<S>>) -> nat
    decreases events.len(),
{
    if !takes_next(run, events) {
        0
    } else {
        let (s, a) = backtracking_step(max_iter, run, events[0]);
        (if a is SolveLinear { 1nat } else { 0nat }) + solve_count(max_iter, s, events.drop_first())
    }
}

/// The trial count and the run state after a backtracking run is fed
/// `events` in turn, up to the first event that it does not wait for.
pub open spec fn run_after<S>(
    max_iter: usize,
    n_iters: nat,
    run: RunState<S>,
    events: Seq<LineSearchEvent<S>>,
) -> (nat, RunState<S>)
    decreases events.len(),
{
    if !takes_next(run, events) {
        (n_iters, run)
    } else {
        let (n, s, a) = backtracking_next(max_iter, n_iters, run, events[0]);
        run_after(max_iter, n, s, events.drop_first())
    }
}

/// Whether `n_iters` is the number of trials that a run at its stage has
/// performed: none before backtracking, one more than the current trial's
/// index during it.
pub open spec fn trials_consistent<S>(n_iters: nat, run: RunState<S>) -> bool {
    match run.stage {
        Stage::InitialResidual => n_iters == 0,
        Stage::InitialSolve => n_iters == 0,
        Stage::InitialNorm => n_iters == 0,
        Stage::TrialResidual => n_iters == run.iter + 1,
        Stage::TrialSolve => n_iters == run.iter + 1,
        Stage::TrialMeasure => n_iters == run.iter + 1,
        Stage::TrialAccept => n_iters == run.iter + 1,
        _ => true,
    }
}

/// Whether, while a run waits at `stage`, the point may stand away from
/// where the call found it: only backtracking trials move it.
pub open spec fn point_moved(stage: Stage) -> bool {
    ||| stage == Stage::TrialResidual
    ||| stage == Stage::TrialSolve
    ||| stage == Stage::TrialMeasure
    ||| stage == Stage::TrialAccept
}

/// Whether finishing from `stage` with the update `point` leaves the point
/// where the call found it.
pub open spec fn leaves_point_where_found(stage: Stage, point: PointUpdate) -> bool {
    point == PointUpdate::Restore || (point == PointUpdate::Keep && !point_moved(stage))
}

/// A trial residual evaluation that fails with an error not classified as
/// recoverable ends the search at once with that same error, and the point
/// is put back where backtracking started.
pub proof fn lemma_fatal_trial_error_stops<S>(
    max_iter: usize,
    n_iters: nat,
    run: RunState<S>,
    e: NlError<S>,
    below_min_step: bool,
)
    requires
        run.stage == Stage::TrialResidual,
        !e.is_recoverable_operator_error(),
    ensures
        ({
            let (n, s, a) = backtracking_next(
                max_iter,
                n_iters,
                run,
                LineSearchEvent::TrialEvaluated { result: Err(e), below_min_step },
            );
            &&& a == LineSearchAction::Finish {
                point: PointUpdate::Restore,
                result: Err::<ConvergenceStatus, NlError<S>>(e),
                exhausted: false,
            }
            &&& s.stage == Stage::Finished
            &&& n == n_iters
        }),
{
}

/// A recoverable error at a trial point puts the point back and retries with
/// a shorter step, as long as the step length is not below the minimum step
/// and trials are left; the error is kept as the last recoverable one and the
/// new trial is counted.
pub proof fn lemma_recoverable_trial_error_backtracks<S>(
    max_iter: usize,
    n_iters: nat,
    run: RunState<S>,
    e: NlError<S>,
)
    requires
        run.stage == Stage::TrialResidual,
        e.is_recoverable_operator_error(),
        run.iter + 1 < max_iter,
    ensures
        ({
            let (n, s, a) = backtracking_next(
                max_iter,
                n_iters,
                run,
                LineSearchEvent::TrialEvaluated { result: Err(e), below_min_step: false },
            );
            &&& a == LineSearchAction::<S>::Trial { first: false }
            &&& s.stage == Stage::TrialResidual
            &&& s.iter == run.iter + 1
            &&& s.last_recoverable == Some(e)
            &&& n == run.iter + 2
        }),
{
}

/// A recoverable error at a trial whose step length is already below the
/// minimum step ends the search with that error and the point restored.
pub proof fn lemma_recoverable_error_below_min_step_fails<S>(
    max_iter: usize,
    n_iters: nat,
    run: RunState<S>,
    e: NlError<S>,
)
    requires
        run.stage == Stage::TrialResidual,
        e.is_recoverable_operator_error(),
    ensures
        ({
            let (n, s, a) = backtracking_next(
                max_iter,
                n_iters,
                run,
                LineSearchEvent::TrialEvaluated { result: Err(e), below_min_step: true },
            );
            &&& a == LineSearchAction::Finish {
                point: PointUpdate::Restore,
                result: Err::<ConvergenceStatus, NlError<S>>(e),
                exhausted: false,
            }
            &&& s.stage == Stage::Finished
            &&& n == n_iters
        }),
{
}

/// When the last trial fails without reaching the minimum step, the search
/// gives up with the point restored: with the last recoverable error if one
/// occurred during the call, else with the iteration-limit error.
pub proof fn lemma_exhausted_search_reports_last_recoverable_error<S>(
    max_iter: usize,
    n_iters: nat,
    run: RunState<S>,
)
    requires
        run.stage == Stage::TrialMeasure,
        !run.below_min_step,
        run.iter + 1 >= max_iter,
    ensures
        ({
            let (n, s, a) = backtracking_next(
                max_iter,
                n_iters,
                run,
                LineSearchEvent::TrialMeasured { sufficient_decrease: false },
            );
            &&& a == LineSearchAction::Finish {
                point: PointUpdate::Restore,
                result: Err::<ConvergenceStatus, NlError<S>>(match run.last_recoverable {
                    Some(e) => e,
                    None => NlError::NonLinearSolverError(NonLinearSolverError::LinesearchFailedMaxIterations),
                }),
                exhausted: true,
            }
            &&& s.stage == Stage::Finished
            &&& n == n_iters
        }),
{
}

/// A trial point that satisfies the sufficient-decrease condition is
/// accepted where it stands, and the search returns the convergence status
/// of its norm.
pub proof fn lemma_sufficient_decrease_accepts<S>(
    max_iter: usize,
    n_iters: nat,
    run: RunState<S>,
    status: ConvergenceStatus,
)
    requires
        run.stage == Stage::TrialMeasure,
    ensures
        ({
            let (n, s, a) = backtracking_next(
                max_iter,
                n_iters,
                run,
                LineSearchEvent::TrialMeasured { sufficient_decrease: true },
            );
            let (n2, s2, a2) = backtracking_next(max_iter, n, s, LineSearchEvent::Status(status));
            &&& a == LineSearchAction::<S>::AcceptTrial
            &&& n == n_iters
            &&& a2 == LineSearchAction::Finish {
                point: PointUpdate::Keep,
                result: Ok::<ConvergenceStatus, NlError<S>>(status),
                exhausted: false,
            }
            &&& s2.stage == Stage::Finished
            &&& n2 == n_iters
        }),
{
}

/// On the first Newton iteration, a Newton step whose norm already passes
/// the convergence test is taken in full and the search reports convergence.
pub proof fn lemma_converged_first_step_is_taken<S>(max_iter: usize, n_iters: nat, run: RunState<S>)
    requires
        run.stage == Stage::InitialNorm,
    ensures
        ({
            let (n, s, a) = backtracking_next(
                max_iter,
                n_iters,
                run,
                LineSearchEvent::<S>::Status(ConvergenceStatus::Converged),
            );
            &&& a == LineSearchAction::Finish {
                point: PointUpdate::FullStep,
                result: Ok::<ConvergenceStatus, NlError<S>>(ConvergenceStatus::Converged),
                exhausted: false,
            }
            &&& s.stage == Stage::Finished
            &&& n == n_iters
        }),
{
}

/// Every step of a backtracking run that it waits for keeps the trial index
/// in range and strictly lowers a measure that never goes below zero, so a
/// run ends after at most `4 * max_iter + 7` steps.
pub proof fn lemma_backtracking_run_progresses<S>(max_iter: usize, run: RunState<S>, event: LineSearchEvent<S>)
    requires
        run_wf(max_iter, run),
        awaits(run.stage, event),
        run.stage != Stage::FullStep,
    ensures
        ({
            let (s, a) = backtracking_step(max_iter, run, event);
            &&& run_wf(max_iter, s)
            &&& 0 <= run_measure(max_iter, s) < run_measure(max_iter, run)
            &&& run_measure(max_iter, run) <= 4 * max_iter + 7
            &&& (s.stage == Stage::Finished <==> a is Finish)
        }),
{
}

/// Every step of a backtracking run keeps its budgets of trials and of
/// linear solves: a step that asks for a trial or a solve uses one up, and
/// no step adds any.
pub proof fn lemma_work_budget_step<S>(max_iter: usize, run: RunState<S>, event: LineSearchEvent<S>)
    requires
        run_wf(max_iter, run),
        awaits(run.stage, event),
        run.stage != Stage::FullStep,
    ensures
        ({
            let (s, a) = backtracking_step(max_iter, run, event);
            &&& trials_left(max_iter, s) >= 0
            &&& trials_left(max_iter, s) + (if a is Trial { 1int } else { 0int }) <= trials_left(max_iter, run)
            &&& solves_left(max_iter, s) >= 0
            &&& solves_left(max_iter, s) + (if a is SolveLinear { 1int } else { 0int }) <= solves_left(
                max_iter,
                run,
            )
        }),
{
}

/// However its operators answer, a backtracking run asks for at most as
/// many trial points and linear solves as it has left.
pub proof fn lemma_work_counts_bounded<S>(max_iter: usize, run: RunState<S>, events: Seq<LineSearchEvent<S>>)
    requires
        run_wf(max_iter, run),
        trials_left(max_iter, run) >= 0,
        solves_left(max_iter, run) >= 0,
    ensures
        trial_count(max_iter, run, events) <= trials_left(max_iter, run),
        solve_count(max_iter, run, events) <= solves_left(max_iter, run),
    decreases events.len(),
{
    if takes_next(run, events) {
        let (s, a) = backtracking_step(max_iter, run, events[0]);
        lemma_backtracking_run_progresses(max_iter, run, events[0]);
        lemma_work_budget_step(max_iter, run, events[0]);
        lemma_work_counts_bounded(max_iter, s, events.drop_first());
    }
}

/// One call of the backtracking search, begun by
/// [`BacktrackingLineSearch::start`], evaluates the residual at most
/// `max_iter + 1` times and solves the linear system at most `max_iter + 1`
/// times, whatever its operators report; the one extra evaluation and solve
/// happen only on the first Newton iteration.
pub proof fn lemma_call_work_bounded<S>(max_iter: usize, first_iteration: bool, events: Seq<LineSearchEvent<S>>)
    ensures
        ({
            let (run, a) = backtracking_start::<S>(max_iter, first_iteration);
            let extra: int = if first_iteration { 1 } else { 0 };
            &&& (if a is EvaluateResidual || a is Trial { 1int } else { 0int }) + trial_count(max_iter, run, events)
                <= max_iter + extra
            &&& (if a is SolveLinear { 1int } else { 0int }) + solve_count(max_iter, run, events) <= max_iter + extra
        }),
{
    let (run, a) = backtracking_start::<S>(max_iter, first_iteration);
    lemma_work_counts_bounded(max_iter, run, events);
}

/// Feeding a run events keeps `n_iters` equal to the number of trials
/// performed: it grows by exactly the trials asked for.
pub proof fn lemma_trials_recorded_along_run<S>(
    max_iter: usize,
    n_iters: nat,
    run: RunState<S>,
    events: Seq<LineSearchEvent<S>>,
)
    requires
        trials_consistent(n_iters, run),
    ensures
        run_after(max_iter, n_iters, run, events).0 == n_iters + trial_count(max_iter, run, events),
    decreases events.len(),
{
    if takes_next(run, events) {
        let (n, s, a) = backtracking_next(max_iter, n_iters, run, events[0]);
        assert(trials_consistent(n, s));
        assert(n == n_iters + (if a is Trial { 1nat } else { 0nat }));
        lemma_trials_recorded_along_run(max_iter, n, s, events.drop_first());
    }
}

/// After a call of the backtracking search, `n_iters` is the number of
/// trial points that the call evaluated, that is the number of line search
/// iterations it performed.
pub proof fn lemma_n_iters_counts_call_trials<S>(
    max_iter: usize,
    first_iteration: bool,
    events: Seq<LineSearchEvent<S>>,
)
    ensures
        ({
            let (run, a) = backtracking_start::<S>(max_iter, first_iteration);
            let n0: nat = if a is Trial { 1 } else { 0 };
            run_after(max_iter, n0, run, events).0 == n0 + trial_count(max_iter, run, events)
        }),
{
    let (run, a) = backtracking_start::<S>(max_iter, first_iteration);
    let n0: nat = if a is Trial { 1 } else { 0 };
    lemma_trials_recorded_along_run(max_iter, n0, run, events);
}

/// Only backtracking trials move the point: a step that leaves a stage where
/// the point is where the call found it for one where it may not be asks
/// for the first trial, and a trial is the first one exactly when the point
/// has not moved yet.  A call that ends before any trial leaves the point
/// alone, or takes the full Newton step after it converged.
pub proof fn lemma_point_moves_only_by_trials<S>(max_iter: usize, run: RunState<S>, event: LineSearchEvent<S>)
    requires
        awaits(run.stage, event),
        run.stage != Stage::FullStep,
    ensures
        ({
            let (s, a) = backtracking_step(max_iter, run, event);
            &&& point_moved(s.stage) && !point_moved(run.stage) ==> a == LineSearchAction::<S>::Trial {
                first: true,
            }
            &&& a is Trial ==> point_moved(s.stage)
            &&& a matches LineSearchAction::Trial { first } ==> (first <==> !point_moved(run.stage))
        }),
        ({
            let (s0, a0) = backtracking_start::<S>(max_iter, false);
            &&& !point_moved(Stage::InitialResidual)
            &&& a0 matches LineSearchAction::Finish { point, .. } ==> point == PointUpdate::Keep
            &&& a0 is Trial ==> a0 == LineSearchAction::<S>::Trial { first: true } && point_moved(s0.stage)
        }),
{
}

/// A backtracking search that fails leaves the point where the call found
/// it, unless it fails because the step length fell below the minimum step:
/// then the point stays at the last trial point.
pub proof fn lemma_failed_search_leaves_point<S>(max_iter: usize, run: RunState<S>, event: LineSearchEvent<S>)
    requires
        awaits(run.stage, event),
        run.stage != Stage::FullStep,
    ensures
        ({
            let (s, a) = backtracking_step(max_iter, run, event);
            a matches LineSearchAction::Finish { point, result: Err(e), .. } ==> {
                ||| leaves_point_where_found(run.stage, point)
                ||| run.stage == Stage::TrialMeasure && point == PointUpdate::Keep && e == NlError::<
                    S,
                >::NonLinearSolverError(NonLinearSolverError::LinesearchFailedMinStep)
            }
        }),
        ({
            let (s, a) = backtracking_step(max_iter, run, event);
            a matches LineSearchAction::Finish { point, .. } && point == PointUpdate::Keep && point_moved(
                run.stage,
            ) && run.stage != Stage::TrialAccept ==> a == LineSearchAction::Finish {
                point: PointUpdate::Keep,
                result: Err::<ConvergenceStatus, NlError<S>>(
                    NlError::NonLinearSolverError(NonLinearSolverError::LinesearchFailedMinStep),
                ),
                exhausted: false,
            }
        }),
{
}

/// Whether a run waiting at `stage` is inside the backtracking loop, before
/// a trial is accepted.
pub open spec fn in_backtracking(stage: Stage) -> bool {
    ||| stage == Stage::TrialResidual
    ||| stage == Stage::TrialSolve
    ||| stage == Stage::TrialMeasure
}

/// The most recent recoverable error once `event` is taken, when `prev` was
/// the most recent before it: a trial residual evaluation that fails with a
/// recoverable error replaces it, and nothing else does.
pub open spec fn latest_recoverable<S>(prev: Option<NlError<S>>, event: LineSearchEvent<S>) -> Option<
    NlError<S>,
> {
    match event {
        LineSearchEvent::TrialEvaluated { result: Err(e), .. } => if e.is_recoverable_operator_error() {
            Some(e)
        } else {
            prev
        },
        _ => prev,
    }
}

/// A trial that evaluates and solves but fails the sufficient-decrease test,
/// with a step not below the minimum step and trials left, leads to the next
/// trial from the saved point, with the last recoverable error kept and the
/// new trial counted.
pub proof fn lemma_insufficient_decrease_tries_shorter_step<S>(max_iter: usize, n_iters: nat, run: RunState<S>)
    requires
        run.stage == Stage::TrialMeasure,
        !run.below_min_step,
        run.iter + 1 < max_iter,
    ensures
        ({
            let (n, s, a) = backtracking_next(
                max_iter,
                n_iters,
                run,
                LineSearchEvent::TrialMeasured { sufficient_decrease: false },
            );
            &&& a == LineSearchAction::<S>::Trial { first: false }
            &&& s.stage == Stage::TrialResidual
            &&& s.iter == run.iter + 1
            &&& !s.below_min_step
            &&& s.last_recoverable == run.last_recoverable
            &&& n == run.iter + 2
        }),
{
}

/// A trial that fails the sufficient-decrease test with a step below the
/// minimum step ends the search with the minimum-step error, the point left
/// at the trial point.
pub proof fn lemma_min_step_failure<S>(max_iter: usize, n_iters: nat, run: RunState<S>)
    requires
        run.stage == Stage::TrialMeasure,
        run.below_min_step,
    ensures
        ({
            let (n, s, a) = backtracking_next(
                max_iter,
                n_iters,
                run,
                LineSearchEvent::TrialMeasured { sufficient_decrease: false },
            );
            &&& a == LineSearchAction::Finish {
                point: PointUpdate::Keep,
                result: Err::<ConvergenceStatus, NlError<S>>(
                    NlError::NonLinearSolverError(NonLinearSolverError::LinesearchFailedMinStep),
                ),
                exhausted: false,
            }
            &&& s.stage == Stage::Finished
            &&& n == n_iters
        }),
{
}

/// A successful evaluation or solve moves the run on to the next piece of
/// work of the same trial (or of the Newton step), keeping the trial index,
/// the minimum-step flag and the last recoverable error.
pub proof fn lemma_successful_work_moves_on<S>(
    max_iter: usize,
    n_iters: nat,
    run: RunState<S>,
    below_min_step: bool,
    status: ConvergenceStatus,
)
    ensures
        run.stage == Stage::InitialResidual ==> ({
            let (n, s, a) = backtracking_next(max_iter, n_iters, run, LineSearchEvent::Evaluated(Ok(())));
            &&& a == LineSearchAction::<S>::SolveLinear
            &&& s.stage == Stage::InitialSolve
            &&& n == n_iters
        }),
        run.stage == Stage::InitialSolve ==> ({
            let (n, s, a) = backtracking_next(max_iter, n_iters, run, LineSearchEvent::Solved(Ok(())));
            &&& a == LineSearchAction::<S>::CheckInitialNorm
            &&& s.stage == Stage::InitialNorm
            &&& n == n_iters
        }),
        run.stage == Stage::InitialNorm && status != ConvergenceStatus::Converged && max_iter > 0 ==> ({
            let (n, s, a) = backtracking_next(max_iter, n_iters, run, LineSearchEvent::Status(status));
            &&& a == LineSearchAction::<S>::Trial { first: true }
            &&& s.stage == Stage::TrialResidual
            &&& s.iter == 0
            &&& s.last_recoverable is None
            &&& n == 1
        }),
        run.stage == Stage::TrialResidual ==> ({
            let (n, s, a) = backtracking_next(
                max_iter,
                n_iters,
                run,
                LineSearchEvent::TrialEvaluated { result: Ok(()), below_min_step },
            );
            &&& a == LineSearchAction::<S>::SolveLinear
            &&& s.stage == Stage::TrialSolve
            &&& s.iter == run.iter
            &&& s.below_min_step == below_min_step
            &&& s.last_recoverable == run.last_recoverable
            &&& n == n_iters
        }),
        run.stage == Stage::TrialSolve ==> ({
            let (n, s, a) = backtracking_next(max_iter, n_iters, run, LineSearchEvent::Solved(Ok(())));
            &&& a == LineSearchAction::<S>::MeasureTrial
            &&& s.stage == Stage::TrialMeasure
            &&& s.iter == run.iter
            &&& s.below_min_step == run.below_min_step
            &&& s.last_recoverable == run.last_recoverable
            &&& n == n_iters
        }),
{
}

/// Errors of the residual evaluation and of the linear solve are returned as
/// they are: a failed evaluation before backtracking, or a failed solve,
/// ends the search with that error (the point restored when a trial had
/// moved it), and so does a trial evaluation error that is not recoverable
/// or comes with a step below the minimum step.  A search returns `Ok` only
/// after a converged Newton step, taken in full, or an accepted trial.
pub proof fn lemma_errors_are_returned<S>(max_iter: usize, n_iters: nat, run: RunState<S>, event: LineSearchEvent<S>)
    requires
        awaits(run.stage, event),
        run.stage != Stage::FullStep,
    ensures
        ({
            let (n, s, a) = backtracking_next(max_iter, n_iters, run, event);
            &&& event matches LineSearchEvent::Evaluated(Err(e)) ==> a == LineSearchAction::Finish {
                point: PointUpdate::Keep,
                result: Err::<ConvergenceStatus, NlError<S>>(e),
                exhausted: false,
            } && n == n_iters
            &&& event matches LineSearchEvent::Solved(Err(e)) ==> a == LineSearchAction::Finish {
                point: if run.stage == Stage::InitialSolve { PointUpdate::Keep } else { PointUpdate::Restore },
                result: Err::<ConvergenceStatus, NlError<S>>(e),
                exhausted: false,
            } && n == n_iters
            &&& event matches LineSearchEvent::TrialEvaluated { result: Err(e), below_min_step } ==> ((
            !e.is_recoverable_operator_error() || below_min_step) ==> a == LineSearchAction::Finish {
                point: PointUpdate::Restore,
                result: Err::<ConvergenceStatus, NlError<S>>(e),
                exhausted: false,
            } && n == n_iters)
            &&& a matches LineSearchAction::Finish { point, result: Ok(st), .. } ==> {
                ||| run.stage == Stage::InitialNorm && st == ConvergenceStatus::Converged && point
                    == PointUpdate::FullStep && event == LineSearchEvent::<S>::Status(ConvergenceStatus::Converged)
                ||| run.stage == Stage::TrialAccept && point == PointUpdate::Keep && event
                    == LineSearchEvent::<S>::Status(st)
            }
        }),
{
}

/// The backtracking loop gives up for lack of trials only after it has
/// performed all `max_iter` trials of the call; a step never gives up while
/// trials are left.
pub proof fn lemma_gives_up_only_after_all_trials<S>(
    max_iter: usize,
    n_iters: nat,
    run: RunState<S>,
    event: LineSearchEvent<S>,
)
    requires
        awaits(run.stage, event),
        run.stage != Stage::FullStep,
        run_wf(max_iter, run),
        trials_consistent(n_iters, run),
    ensures
        ({
            let (n, s, a) = backtracking_next(max_iter, n_iters, run, event);
            &&& trials_consistent(n, s)
            &&& a matches LineSearchAction::Finish { exhausted: true, .. } ==> n == max_iter
            &&& a matches LineSearchAction::Finish { exhausted: true, .. } ==> (in_backtracking(run.stage)
                ==> run.iter + 1 == max_iter)
        }),
        ({
            let (s0, a0) = backtracking_start::<S>(max_iter, false);
            &&& a0 matches LineSearchAction::Finish { exhausted: true, .. } ==> max_iter == 0
            &&& a0 is Trial ==> trials_consistent(1, s0) && run_wf(max_iter, s0)
        }),
{
}

/// The last recoverable error of a call is the most recent one met by a
/// trial residual evaluation: it starts empty when backtracking begins, is
/// replaced by each recoverable trial error, and is carried unchanged
/// through every other step of the loop.  A search that runs out of trials
/// returns it, or the iteration-limit error when the call met none.
pub proof fn lemma_last_recoverable_error_tracked<S>(max_iter: usize, run: RunState<S>, event: LineSearchEvent<S>)
    requires
        awaits(run.stage, event),
        run.stage != Stage::FullStep,
    ensures
        ({
            let (s, a) = backtracking_step(max_iter, run, event);
            let latest = if in_backtracking(run.stage) {
                latest_recoverable(run.last_recoverable, event)
            } else {
                None
            };
            &&& in_backtracking(s.stage) ==> s.last_recoverable == latest
            &&& a matches LineSearchAction::Finish { result, exhausted: true, .. } ==> result == Err::<
                ConvergenceStatus,
                NlError<S>,
            >(match latest {
                Some(e) => e,
                None => NlError::NonLinearSolverError(NonLinearSolverError::LinesearchFailedMaxIterations),
            })
        }),
        ({
            let (s0, a0) = backtracking_start::<S>(max_iter, false);
            &&& in_backtracking(s0.stage) ==> s0.last_recoverable is None
            &&& a0 matches LineSearchAction::Finish { result, exhausted: true, .. } ==> result == Err::<
                ConvergenceStatus,
                NlError<S>,
            >(NlError::NonLinearSolverError(NonLinearSolverError::LinesearchFailedMaxIterations))
        }),
{
}

/// The search without backtracking takes the full Newton step only once the
/// residual has been evaluated and the Newton system solved without error;
/// an error of either ends the search with that error and the point as it
/// was, and the status of the full step is what it returns.
pub proof fn lemma_full_step_only_after_solve<S>(run: RunState<S>, event: LineSearchEvent<S>)
    requires
        awaits(run.stage, event),
        run.stage == Stage::InitialResidual || run.stage == Stage::InitialSolve || run.stage == Stage::FullStep,
    ensures
        ({
            let (s, a) = full_step_next(run, event);
            &&& event matches LineSearchEvent::Evaluated(Err(e)) ==> a == LineSearchAction::Finish {
                point: PointUpdate::Keep,
                result: Err::<ConvergenceStatus, NlError<S>>(e),
                exhausted: false,
            }
            &&& event matches LineSearchEvent::Solved(Err(e)) ==> a == LineSearchAction::Finish {
                point: PointUpdate::Keep,
                result: Err::<ConvergenceStatus, NlError<S>>(e),
                exhausted: false,
            }
            &&& event matches LineSearchEvent::Evaluated(Ok(_)) ==> a == LineSearchAction::<S>::SolveLinear
                && s.stage == Stage::InitialSolve
            &&& (a is TakeFullStep <==> (run.stage == Stage::InitialSolve && event is Solved && event->Solved_0 is Ok))
            &&& a is TakeFullStep ==> s.stage == Stage::FullStep
            &&& event matches LineSearchEvent::Status(st) ==> a == LineSearchAction::Finish {
                point: PointUpdate::Keep,
                result: Ok::<ConvergenceStatus, NlError<S>>(st),
                exhausted: false,
            }
            &&& a matches LineSearchAction::Finish { result: Ok(_), .. } ==> run.stage == Stage::FullStep
            &&& a matches LineSearchAction::Finish { point, .. } ==> point == PointUpdate::Keep && s.stage == Stage::Finished
        }),
{
}

} // verus!
