use diffsol::closure::{FallibleClosure, FallibleLinearClosure, OpStatistics};
use diffsol::error::{LaError, MatrixError};
use diffsol::sparsity::{JacobianColoring, Sparsity};

fn conflict(entries: &[(usize, usize)], j: usize, k: usize) -> bool {
    entries.iter().any(|&(r, c)| c == j && entries.iter().any(|&(r2, c2)| c2 == k && r2 == r))
}

fn check_coloring(s: &Sparsity, c: &JacobianColoring) {
    assert_eq!(c.ncols(), s.ncols());
    for j in 0..s.ncols() {
        assert!(c.color(j) < c.ncolors());
        for k in 0..s.ncols() {
            if j != k && conflict(s.indices(), j, k) {
                assert_ne!(c.color(j), c.color(k));
            }
        }
    }
}

#[test]
fn pattern_out_of_bounds_is_refused() {
    assert!(matches!(Sparsity::try_from_indices(2, 2, vec![(0, 0), (2, 1)]), Err(MatrixError::IndexOutOfBounds)));
    assert!(matches!(Sparsity::try_from_indices(2, 2, vec![(0, 2)]), Err(MatrixError::IndexOutOfBounds)));
    let s = Sparsity::try_from_indices(2, 3, vec![(1, 2), (0, 0)]).unwrap();
    assert_eq!(s.nrows(), 2);
    assert_eq!(s.ncols(), 3);
    assert_eq!(s.indices(), &vec![(1, 2), (0, 0)]);
}

#[test]
fn union_needs_equal_shapes() {
    let a = Sparsity::try_from_indices(2, 2, vec![(0, 0)]).unwrap();
    let b = Sparsity::try_from_indices(2, 2, vec![(1, 1), (0, 0)]).unwrap();
    let u = a.union(&b).unwrap();
    let mut e = u.indices().clone();
    e.sort();
    e.dedup();
    assert_eq!(e, vec![(0, 0), (1, 1)]);
    let c = Sparsity::try_from_indices(2, 3, vec![]).unwrap();
    assert!(matches!(a.union(&c), Err(MatrixError::UnionIncompatibleShapes)));
}

#[test]
fn diagonal_pattern_needs_one_color() {
    let s = Sparsity::try_from_indices(3, 3, vec![(0, 0), (1, 1), (2, 2)]).unwrap();
    let c = JacobianColoring::new(&s);
    assert_eq!(c.ncolors(), 1);
    check_coloring(&s, &c);
}

#[test]
fn tridiagonal_pattern_needs_three_colors() {
    let n = 6;
    let mut entries = vec![];
    for i in 0..n {
        if i > 0 {
            entries.push((i, i - 1));
        }
        entries.push((i, i));
        if i + 1 < n {
            entries.push((i, i + 1));
        }
    }
    let s = Sparsity::try_from_indices(n, n, entries).unwrap();
    let c = JacobianColoring::new(&s);
    assert_eq!(c.ncolors(), 3);
    for j in 0..n {
        assert_eq!(c.color(j), j % 3);
    }
    check_coloring(&s, &c);
}

#[test]
fn dense_row_forces_distinct_colors() {
    let s = Sparsity::try_from_indices(2, 4, vec![(0, 0), (0, 1), (0, 2), (0, 3), (1, 1)]).unwrap();
    let c = JacobianColoring::new(&s);
    assert_eq!(c.ncolors(), 4);
    check_coloring(&s, &c);
}

#[test]
fn closure_records_probed_pattern() {
    let mut op = FallibleClosure::new(|x: f64| x, |v: f64| 2.0 * v, 2, 3, 1, ());
    assert!(op.jacobian_sparsity().is_none());
    assert!(op.coloring().is_none());
    let r: Result<(), LaError<()>> = op.calculate_sparsity(vec![(0, 0), (1, 1), (2, 0), (2, 1)]);
    assert!(r.is_ok());
    let s = op.jacobian_sparsity().unwrap();
    assert_eq!((s.nrows(), s.ncols()), (3, 2));
    check_coloring(&s, op.coloring().unwrap());
    assert_eq!(op.coloring().unwrap().ncolors(), 2);
    assert_eq!((op.func())(3.0), 3.0);
    assert_eq!((op.jacobian_action())(3.0), 6.0);
}

#[test]
fn closure_rejects_pattern_outside_its_shape() {
    let mut op = FallibleClosure::new((), (), 2, 2, 0, ());
    let r: Result<(), LaError<()>> = op.calculate_sparsity(vec![(0, 2)]);
    assert!(matches!(r, Err(LaError::MatrixError(MatrixError::IndexOutOfBounds))));
    assert!(op.jacobian_sparsity().is_none());
    op.set_nout(3);
    op.set_nstates(4);
    op.set_nparams(5);
    assert_eq!((op.nout(), op.nstates(), op.nparams()), (3, 4, 5));
    let r: Result<(), LaError<()>> = op.calculate_sparsity(vec![(2, 3)]);
    assert!(r.is_ok());
}

#[test]
fn closure_counts_evaluations() {
    let mut op = FallibleClosure::new((), (), 1, 1, 0, ());
    assert_eq!(op.statistics(), OpStatistics::new());
    op.record_call();
    op.record_call();
    op.record_jac_mul();
    op.record_matrix();
    let s = op.statistics();
    assert_eq!((s.number_of_calls, s.number_of_jac_muls, s.number_of_matrix_evals, s.number_of_jac_adj_muls), (2, 1, 1, 0));
}

#[test]
fn linear_closure_records_pattern_and_counts() {
    let mut op = FallibleLinearClosure::new(|x: f64| 4.0 * x, 2, 2, 0, 7u8);
    assert_eq!(*op.context(), 7);
    let r: Result<(), LaError<()>> = op.calculate_sparsity(vec![(0, 0), (1, 0)]);
    assert!(r.is_ok());
    assert_eq!(op.sparsity().unwrap().indices(), &vec![(0, 0), (1, 0)]);
    assert_eq!(op.coloring().unwrap().ncolors(), 1);
    let r: Result<(), LaError<()>> = op.calculate_sparsity(vec![(5, 0)]);
    assert!(r.is_err());
    assert_eq!(op.sparsity().unwrap().indices(), &vec![(0, 0), (1, 0)]);
    op.record_call();
    op.record_matrix();
    assert_eq!(op.statistics().number_of_calls, 1);
    assert_eq!(op.statistics().number_of_matrix_evals, 1);
    assert_eq!((op.func())(2.0), 8.0);
}
