use diffsol::error::{LaError, LinearSolverError};
use diffsol::sparse_lu::{factor_for_batch, FaerSparseLU};
use faer::linalg::solvers::Solve;
use faer::sparse::linalg::solvers::{Lu, SymbolicLu};
use faer::sparse::{SparseColMat, Triplet};
use faer::Mat;

type Solver = FaerSparseLU<Vec<SparseColMat<usize, f64>>, SymbolicLu<usize>, Lu<usize, f64>>;

type Error = LaError<()>;

fn other(message: String) -> Error {
    LaError::LinearSolverError(LinearSolverError::Other(message))
}

/// Sets up the solver for the pattern of `matrix` (one batch).
fn set_sparsity(s: &mut Solver, matrix: SparseColMat<usize, f64>) -> Result<(), Error> {
    s.clear_setup();
    let symbolic = SymbolicLu::try_new(matrix.symbolic())
        .map_err(|e| other(format!("Faer sparse symbolic analysis failed: {e}")))?;
    s.set_setup(vec![matrix], symbolic);
    Ok(())
}

/// Refills the matrix with `values` and factors it.
fn set_linearisation(s: &mut Solver, values: &SparseColMat<usize, f64>) -> Result<(), Error> {
    let matrix = s.begin_linearisation().map_err(LaError::LinearSolverError)?;
    matrix[0] = values.clone();
    let matrices = matrix.clone();
    let symbolic = s.symbolic().map_err(LaError::LinearSolverError)?.clone();
    let mut lu = Vec::new();
    for m in matrices.iter() {
        lu.push(
            Lu::try_new_with_symbolic(symbolic.clone(), m.as_ref())
                .map_err(|e| other(format!("Faer sparse numeric factorization failed: {e}")))?,
        );
    }
    s.set_factors(lu);
    Ok(())
}

/// Solves every column of `b` with the factorisation for its batch.
fn solve_in_place(s: &Solver, b: &mut Mat<f64>) -> Result<(), Error> {
    let lu = s.factors().map_err(LaError::LinearSolverError)?;
    let nb = b.ncols();
    assert!(lu.len() == 1 || lu.len() == nb, "incompatible nbatch");
    for batch in 0..nb {
        lu[factor_for_batch(lu.len(), nb, batch)].solve_in_place(b.as_mut().col_mut(batch));
    }
    Ok(())
}

fn diagonal(n: usize, value: f64) -> SparseColMat<usize, f64> {
    let triplets: Vec<_> = (0..n).map(|i| Triplet::new(i, i, value)).collect();
    SparseColMat::try_new_from_triplets(n, n, &triplets).unwrap()
}

#[test]
fn test_sparse_lu() {
    let mut s = Solver::new();
    set_sparsity(&mut s, diagonal(2, 2.0)).unwrap();
    set_linearisation(&mut s, &diagonal(2, 2.0)).unwrap();
    let mut b = Mat::from_fn(2, 1, |i, _| [2.0, 4.0][i]);
    solve_in_place(&s, &mut b).unwrap();
    assert!((b[(0, 0)] - 1.0).abs() < 1e-10);
    assert!((b[(1, 0)] - 2.0).abs() < 1e-10);
}

#[test]
fn sparse_lu_reports_linearisation_before_setup() {
    let mut s = Solver::new();
    let error = set_linearisation(&mut s, &diagonal(2, 2.0)).unwrap_err();
    assert!(matches!(error, LaError::LinearSolverError(LinearSolverError::LinearSolverNotSetup)));
    assert!(matches!(s.begin_linearisation(), Err(LinearSolverError::LinearSolverNotSetup)));
}

#[test]
fn sparse_lu_reports_singular_numeric_factorization() {
    let mut s = Solver::new();
    let singular = SparseColMat::try_new_from_triplets(2, 2, &[Triplet::new(0usize, 0usize, 1.0)]).unwrap();
    set_sparsity(&mut s, singular.clone()).unwrap();

    let error = set_linearisation(&mut s, &singular).unwrap_err();

    let LaError::LinearSolverError(LinearSolverError::Other(message)) = error else {
        panic!("unexpected error: {error:?}");
    };
    assert!(message.contains("Faer sparse numeric factorization failed"));
    assert!(matches!(s.factors(), Err(LinearSolverError::LuNotInitialized)));
}

#[test]
fn solve_before_linearisation_reports_lu_not_initialized() {
    let mut s = Solver::new();
    assert!(matches!(s.factors(), Err(LinearSolverError::LuNotInitialized)));
    set_sparsity(&mut s, diagonal(3, 1.0)).unwrap();
    assert!(matches!(s.factors(), Err(LinearSolverError::LuNotInitialized)));
    assert!(s.matrix().is_some());
}

#[test]
fn new_sparsity_discards_factors() {
    let mut s = Solver::new();
    set_sparsity(&mut s, diagonal(2, 1.0)).unwrap();
    set_linearisation(&mut s, &diagonal(2, 3.0)).unwrap();
    assert_eq!(s.factors().unwrap().len(), 1);
    s.clear_setup();
    assert!(matches!(s.factors(), Err(LinearSolverError::LuNotInitialized)));
    assert!(matches!(s.symbolic(), Err(LinearSolverError::LinearSolverNotSetup)));
    assert!(s.matrix().is_none());
}

#[test]
fn test_grouped_sparse_lu() {
    let mut s = Solver::new();
    s.clear_setup();
    let symbolic = SymbolicLu::try_new(diagonal(2, 1.0).symbolic()).unwrap();
    s.set_setup(vec![diagonal(2, 1.0), diagonal(2, 1.0)], symbolic);
    let matrices = s.begin_linearisation().unwrap();
    matrices[0] = diagonal(2, 2.0);
    matrices[1] = diagonal(2, 4.0);
    let matrices = matrices.clone();
    let symbolic = s.symbolic().unwrap().clone();
    let lu: Vec<_> = matrices.iter().map(|m| Lu::try_new_with_symbolic(symbolic.clone(), m.as_ref()).unwrap()).collect();
    s.set_factors(lu);
    let mut b = Mat::from_fn(2, 2, |_, _| 8.0);
    assert_eq!(s.factors().unwrap().len(), 2);
    solve_in_place(&s, &mut b).unwrap();
    assert!((b[(0, 0)] - 4.0).abs() < 1e-12);
    assert!((b[(1, 1)] - 2.0).abs() < 1e-12);
}

#[test]
fn one_factorisation_serves_every_batch() {
    assert_eq!(factor_for_batch(1, 3, 2), 0);
    assert_eq!(factor_for_batch(3, 3, 2), 2);
    let mut s = Solver::new();
    set_sparsity(&mut s, diagonal(2, 1.0)).unwrap();
    set_linearisation(&mut s, &diagonal(2, 2.0)).unwrap();
    let mut b = Mat::from_fn(2, 3, |_, j| (j + 1) as f64 * 2.0);
    solve_in_place(&s, &mut b).unwrap();
    for j in 0..3 {
        assert!((b[(0, j)] - (j + 1) as f64).abs() < 1e-12);
    }
}
