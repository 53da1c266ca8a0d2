use std::cell::Cell;

use diffsol::error::{LaError, NlError, NonLinearSolverError, OperatorError, OperatorErrorKind};
use diffsol::line_search::{
    BacktrackingLineSearch, ConvergenceStatus, LineSearchAction, LineSearchEvent, NoLineSearch, PointUpdate,
};

#[derive(Debug, Clone, PartialEq)]
struct ModelError(&'static str);

type Error = NlError<ModelError>;

/// A small stand-in for the Newton convergence test: a weighted root-mean
/// square norm, and convergence once it falls below a tenth.
struct Convergence {
    rtol: f64,
    atol: Vec<f64>,
    niter: usize,
}

impl Convergence {
    fn new(rtol: f64, atol: Vec<f64>) -> Self {
        Convergence { rtol, atol, niter: 0 }
    }

    fn norm(&self, delta: &[f64], y: &[f64]) -> f64 {
        let mut acc = 0.0;
        for i in 0..delta.len() {
            let scale = self.atol[i] + self.rtol * y[i].abs();
            acc += (delta[i] / scale).powi(2);
        }
        (acc / delta.len() as f64).sqrt()
    }

    fn check_norm(&self, norm: f64) -> ConvergenceStatus {
        if norm < 0.1 {
            ConvergenceStatus::Converged
        } else {
            ConvergenceStatus::Continue
        }
    }

    fn check_new_iteration(&mut self, norm: f64) -> ConvergenceStatus {
        self.niter += 1;
        self.check_norm(norm)
    }
}

/// The step arithmetic of the backtracking search, around the decisions of
/// the library's state machine.
struct Backtracking {
    search: BacktrackingLineSearch<f64>,
    norm: f64,
    x0: Vec<f64>,
    delta0: Vec<f64>,
}

impl Backtracking {
    fn new() -> Self {
        let steptol = f64::EPSILON.powf(2.0 / 3.0);
        Backtracking { search: BacktrackingLineSearch::new(0.5, 1e-4, steptol), norm: 1.0, x0: vec![], delta0: vec![] }
    }

    fn take_optimal_step(
        &mut self,
        x: &mut Vec<f64>,
        delta: &mut Vec<f64>,
        error_y: &[f64],
        fun: &dyn Fn(&[f64], &mut Vec<f64>) -> Result<(), Error>,
        linear_solver: &dyn Fn(&mut Vec<f64>) -> Result<(), Error>,
        convergence: &mut Convergence,
    ) -> Result<ConvergenceStatus, Error> {
        let (mut run, mut action) = self.search.start(convergence.niter == 0);
        let mut alpha = 1.0;
        let mut trial_norm = 0.0;
        loop {
            let event = match action {
                LineSearchAction::EvaluateResidual => LineSearchEvent::Evaluated(fun(x, delta)),
                LineSearchAction::SolveLinear => LineSearchEvent::Solved(linear_solver(delta)),
                LineSearchAction::CheckInitialNorm => {
                    self.norm = convergence.norm(delta, error_y);
                    LineSearchEvent::Status(convergence.check_norm(self.norm))
                }
                LineSearchAction::TakeFullStep => unreachable!(),
                LineSearchAction::Trial { first } => {
                    if first {
                        self.x0 = x.clone();
                        self.delta0 = delta.clone();
                        alpha = 1.0;
                    } else {
                        x.copy_from_slice(&self.x0);
                        alpha *= self.search.tau;
                    }
                    for i in 0..x.len() {
                        x[i] -= alpha * self.delta0[i];
                    }
                    let min_alpha = self.search.steptol / self.norm;
                    LineSearchEvent::TrialEvaluated { result: fun(x, delta), below_min_step: alpha < min_alpha }
                }
                LineSearchAction::MeasureTrial => {
                    trial_norm = convergence.norm(delta, error_y);
                    let phi0 = 0.5 * self.norm * self.norm;
                    let phi1 = 0.5 * trial_norm * trial_norm;
                    let sufficient = phi1 <= phi0 - self.search.c * alpha * self.norm * self.norm;
                    LineSearchEvent::TrialMeasured { sufficient_decrease: sufficient }
                }
                LineSearchAction::AcceptTrial => {
                    self.norm = trial_norm;
                    LineSearchEvent::Status(convergence.check_norm(trial_norm))
                }
                LineSearchAction::Finish { point, result, .. } => {
                    match point {
                        PointUpdate::Keep => {}
                        PointUpdate::FullStep => {
                            for i in 0..x.len() {
                                x[i] -= delta[i];
                            }
                        }
                        PointUpdate::Restore => x.copy_from_slice(&self.x0),
                    }
                    return result;
                }
            };
            assert!(run.accepts(&event));
            action = self.search.advance(&mut run, event);
        }
    }
}

#[test]
fn recoverable_trial_error_backtracks_and_retries() {
    let mut x = vec![1.0];
    let mut delta = vec![0.0];
    let error_y = x.clone();
    let mut convergence = Convergence::new(1e-6, vec![1.0]);
    let calls = Cell::new(0);
    let fun = |_: &[f64], residual: &mut Vec<f64>| {
        let call = calls.get();
        calls.set(call + 1);
        match call {
            0 => {
                residual[0] = 1.0;
                Ok(())
            }
            1 => Err(NlError::from_operator_error(OperatorError::recoverable(ModelError("outside domain")))),
            _ => {
                residual[0] = 0.0;
                Ok(())
            }
        }
    };
    let mut line_search = Backtracking::new();

    line_search
        .take_optimal_step(&mut x, &mut delta, &error_y, &fun, &|_| Ok(()), &mut convergence)
        .unwrap();

    assert_eq!(calls.get(), 3);
    assert_eq!(x[0], 0.5);
    // two trial points were evaluated in this call
    assert_eq!(line_search.search.n_iters, 2);
}

#[test]
fn fatal_trial_error_restores_point_and_stops_immediately() {
    let mut x = vec![1.0];
    let mut delta = vec![0.0];
    let error_y = x.clone();
    let mut convergence = Convergence::new(1e-6, vec![1.0]);
    let calls = Cell::new(0);
    let fun = |_: &[f64], residual: &mut Vec<f64>| {
        let call = calls.get();
        calls.set(call + 1);
        if call == 0 {
            residual[0] = 1.0;
            Ok(())
        } else {
            Err(NlError::from_operator_error(OperatorError::fatal(ModelError("broken constitutive law"))))
        }
    };
    let mut line_search = Backtracking::new();

    let error = match line_search.take_optimal_step(&mut x, &mut delta, &error_y, &fun, &|_| Ok(()), &mut convergence) {
        Ok(_) => panic!("fatal trial error unexpectedly succeeded"),
        Err(error) => error,
    };

    let operator_error = error.operator_error().unwrap();
    assert_eq!(operator_error.kind(), OperatorErrorKind::Fatal);
    assert_eq!(operator_error.source().0, "broken constitutive law");
    assert_eq!(calls.get(), 2);
    assert_eq!(x[0], 1.0);
}

#[test]
fn exhausted_backtracking_returns_last_recoverable_error() {
    let mut x = vec![1.0];
    let mut delta = vec![0.0];
    let error_y = x.clone();
    let mut convergence = Convergence::new(1e-6, vec![1.0]);
    let calls = Cell::new(0);
    let fun = |_: &[f64], residual: &mut Vec<f64>| {
        let call = calls.get();
        calls.set(call + 1);
        if call == 0 {
            residual[0] = 1.0;
            Ok(())
        } else {
            Err(NlError::from_operator_error(OperatorError::recoverable(ModelError("still outside"))))
        }
    };
    let mut line_search = Backtracking::new();
    line_search.search.max_iter = 3;

    let error = line_search
        .take_optimal_step(&mut x, &mut delta, &error_y, &fun, &|_| Ok(()), &mut convergence)
        .unwrap_err();

    assert_eq!(calls.get(), 4);
    assert_eq!(error.operator_error().unwrap().source().0, "still outside");
    assert_eq!(error.operator_error().unwrap().kind(), OperatorErrorKind::Recoverable);
    assert_eq!(line_search.search.n_iters, 3);
    assert_eq!(x[0], 1.0);
}

#[test]
fn exhausted_backtracking_without_errors_reports_iteration_limit() {
    let mut x = vec![1.0];
    let mut delta = vec![0.0];
    let error_y = x.clone();
    let mut convergence = Convergence::new(1e-6, vec![1.0]);
    // the residual grows away from the root: no trial decreases it
    let fun = |x: &[f64], residual: &mut Vec<f64>| {
        residual[0] = if x[0] == 1.0 { 1.0 } else { 10.0 };
        Ok(())
    };
    let solves = Cell::new(0);
    let linear_solver = |_: &mut Vec<f64>| {
        solves.set(solves.get() + 1);
        Ok(())
    };
    let mut line_search = Backtracking::new();
    line_search.search.max_iter = 2;

    let error = line_search
        .take_optimal_step(&mut x, &mut delta, &error_y, &fun, &linear_solver, &mut convergence)
        .unwrap_err();

    assert!(matches!(error, NlError::NonLinearSolverError(NonLinearSolverError::LinesearchFailedMaxIterations)));
    assert_eq!(x[0], 1.0);
    // one solve for the Newton step and one per trial: max_iter + 1 in all
    assert_eq!(solves.get(), 3);
    assert_eq!(line_search.search.n_iters, 2);
}

#[test]
fn running_out_of_trials_is_flagged() {
    let mut search = BacktrackingLineSearch::new(0.5, 1e-4, 1e-10);
    search.max_iter = 1;
    let (mut run, action) = search.start::<ModelError>(false);
    assert!(matches!(action, LineSearchAction::Trial { first: true }));
    let action = search.advance(
        &mut run,
        LineSearchEvent::TrialEvaluated {
            result: Err(NlError::from_operator_error(OperatorError::recoverable(ModelError("outside")))),
            below_min_step: false,
        },
    );
    match action {
        LineSearchAction::Finish { point, result: Err(e), exhausted } => {
            assert_eq!(point, PointUpdate::Restore);
            assert!(exhausted);
            assert_eq!(e.operator_error().unwrap().source().0, "outside");
        }
        _ => panic!("expected the search to give up"),
    }
    assert_eq!(search.n_iters, 1);
}

#[test]
fn backtracking_stops_at_minimum_step() {
    let mut x = vec![1.0];
    let mut delta = vec![0.0];
    let error_y = x.clone();
    let mut convergence = Convergence::new(1e-6, vec![1.0]);
    let fun = |x: &[f64], residual: &mut Vec<f64>| {
        residual[0] = if x[0] == 1.0 { 1.0 } else { 10.0 };
        Ok(())
    };
    let mut line_search = Backtracking::new();
    line_search.search.steptol = 2.0;

    let error = line_search
        .take_optimal_step(&mut x, &mut delta, &error_y, &fun, &|_| Ok(()), &mut convergence)
        .unwrap_err();

    assert!(matches!(error, NlError::NonLinearSolverError(NonLinearSolverError::LinesearchFailedMinStep)));
    // the point stays at the rejected trial
    assert_eq!(x[0], 0.0);
    assert_eq!(line_search.search.n_iters, 1);
}

#[test]
fn converged_first_step_is_taken_in_full() {
    let mut x = vec![1.0];
    let mut delta = vec![0.0];
    let error_y = x.clone();
    let mut convergence = Convergence::new(1e-6, vec![1.0]);
    let fun = |_: &[f64], residual: &mut Vec<f64>| {
        residual[0] = 0.01;
        Ok(())
    };
    let mut line_search = Backtracking::new();
    line_search.search.n_iters = 7;
    let status = line_search
        .take_optimal_step(&mut x, &mut delta, &error_y, &fun, &|_| Ok(()), &mut convergence)
        .unwrap();
    assert_eq!(status, ConvergenceStatus::Converged);
    assert!((x[0] - 0.99).abs() < 1e-15);
    // no backtracking iteration was performed in this call
    assert_eq!(line_search.search.n_iters, 0);
}

#[test]
fn later_iterations_backtrack_at_once() {
    let mut search = BacktrackingLineSearch::new(0.5, 1e-4, 1e-10);
    let (run, action) = search.start::<ModelError>(false);
    assert!(matches!(action, LineSearchAction::Trial { first: true }));
    assert!(!run.is_finished());
    assert_eq!(search.n_iters, 1);

    let mut empty = BacktrackingLineSearch::new(0.5, 1e-4, 1e-10);
    empty.max_iter = 0;
    let (run, action) = empty.start::<ModelError>(false);
    assert!(run.is_finished());
    assert!(matches!(
        action,
        LineSearchAction::Finish {
            point: PointUpdate::Keep,
            result: Err(NlError::NonLinearSolverError(NonLinearSolverError::LinesearchFailedMaxIterations)),
            exhausted: true,
        }
    ));
    assert_eq!(empty.n_iters, 0);
}

#[test]
fn linear_solver_failure_during_trial_restores_point() {
    let mut search = BacktrackingLineSearch::new(0.5, 1e-4, 1e-10);
    let (mut run, _) = search.start::<ModelError>(false);
    let action = search.advance(&mut run, LineSearchEvent::TrialEvaluated { result: Ok(()), below_min_step: false });
    assert!(matches!(action, LineSearchAction::SolveLinear));
    let action = search.advance(
        &mut run,
        LineSearchEvent::Solved(Err(NlError::LaError(LaError::Other("singular".to_string())))),
    );
    match action {
        LineSearchAction::Finish { point, result, exhausted } => {
            assert_eq!(point, PointUpdate::Restore);
            assert!(!exhausted);
            assert!(matches!(result, Err(NlError::LaError(LaError::Other(_)))));
        }
        _ => panic!("expected the search to finish"),
    }
}

#[test]
fn no_line_search_takes_the_full_step() {
    let ls = NoLineSearch::new();
    let (mut run, action) = ls.start::<ModelError>();
    assert!(matches!(action, LineSearchAction::EvaluateResidual));
    let action = ls.advance(&mut run, LineSearchEvent::Evaluated(Ok(())));
    assert!(matches!(action, LineSearchAction::SolveLinear));
    let action = ls.advance(&mut run, LineSearchEvent::Solved(Ok(())));
    assert!(matches!(action, LineSearchAction::TakeFullStep));
    let action = ls.advance(&mut run, LineSearchEvent::Status(ConvergenceStatus::Continue));
    assert!(matches!(action, LineSearchAction::Finish { point: PointUpdate::Keep, result: Ok(ConvergenceStatus::Continue), exhausted: false }));
    assert!(run.is_finished());
}

#[test]
fn no_line_search_passes_residual_errors_on() {
    let ls = NoLineSearch::new();
    let (mut run, _) = ls.start::<ModelError>();
    let action = ls.advance(
        &mut run,
        LineSearchEvent::Evaluated(Err(NlError::from_operator_error(OperatorError::recoverable(ModelError("nan"))))),
    );
    match action {
        LineSearchAction::Finish { point: PointUpdate::Keep, result: Err(e), .. } => {
            assert_eq!(e.operator_error().unwrap().source().0, "nan");
        }
        _ => panic!("expected the error to be returned"),
    }
}

#[test]
fn reset_clears_the_trial_count() {
    let mut search = BacktrackingLineSearch::new(0.5, 1e-4, 1e-10);
    search.n_iters = 7;
    search.reset();
    assert_eq!(search.n_iters, 0);
    assert_eq!(search.max_iter, 10);
}
