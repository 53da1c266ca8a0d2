use diffsol::error::{MatrixError, OperatorErrorKind};
use diffsol::init::InitOp;
use diffsol::sparsity::Sparsity;

/// A dense square matrix stored by rows.
type Dense = Vec<Vec<f64>>;

/// The algebraic indices of a mass matrix: the rows with a zero diagonal.
fn partition_indices_by_zero_diagonal(mass: &Dense) -> Vec<usize> {
    (0..mass.len()).filter(|&i| mass[i][i] == 0.0).collect()
}

/// The mass matrix restricted to its differential block and negated.
fn neg_mass(op: &InitOp<f64>, mass: &Dense) -> Dense {
    let negated: Dense = mass.iter().map(|row| row.iter().map(|v| -v).collect()).collect();
    op.differential_block(&negated, 0.0)
}

/// `y += m x` on one batch of `n` states starting at `offset`.
fn add_mat_vec(m: &Dense, x: &[f64], y: &mut [f64], offset: usize) {
    let n = m.len();
    for i in 0..n {
        let mut acc = 0.0;
        for j in 0..n {
            acc += m[i][j] * x[offset + j];
        }
        y[offset + i] += acc;
    }
}

/// The initial-condition residual `-M_u du + f(u, v); g(u, v)` at `x = (du, v)`,
/// for a right-hand side evaluated batch by batch.
fn init_residual(
    op: &mut InitOp<f64>,
    mass: &Dense,
    x: &Vec<f64>,
    rhs: &dyn Fn(usize, &[f64], &mut [f64]),
) -> Vec<f64> {
    op.refresh_candidate(x);
    let n = op.nstates();
    let candidate = op.candidate().clone();
    let mut y = vec![0.0; candidate.len()];
    let nm = neg_mass(op, mass);
    for b in 0..op.nbatch() {
        rhs(b, &candidate[b * n..(b + 1) * n], &mut y[b * n..(b + 1) * n]);
        add_mat_vec(&nm, x, &mut y, b * n);
    }
    y
}

/// The initial-condition Jacobian at `x`: algebraic columns from the
/// right-hand side Jacobian at the candidate, the others from the negated
/// mass block.
fn init_jacobian(op: &mut InitOp<f64>, mass: &Dense, x: &Vec<f64>, rhs_jac: &dyn Fn(&[f64]) -> Dense) -> Dense {
    let nm = neg_mass(op, mass);
    if op.has_algebraic() {
        op.refresh_candidate(x);
        let n = op.nstates();
        let jr = rhs_jac(&op.candidate()[0..n]);
        op.assemble_jacobian(Some(&jr), &nm)
    } else {
        op.assemble_jacobian(None, &nm)
    }
}

fn assert_close(a: &[f64], b: &[f64], tol: f64) {
    assert_eq!(a.len(), b.len());
    for (x, y) in a.iter().zip(b.iter()) {
        assert!((x - y).abs() <= tol, "{:?} != {:?}", a, b);
    }
}

/// Exponential decay with an algebraic state: f(u) = -p u, g(u, v) = v - u_1.
fn decay_rhs(p: f64) -> impl Fn(usize, &[f64], &mut [f64]) {
    move |_b, x, y| {
        y[0] = -p * x[0];
        y[1] = -p * x[1];
        y[2] = x[2] - x[1];
    }
}

fn decay_mass() -> Dense {
    vec![vec![1.0, 0.0, 0.0], vec![0.0, 1.0, 0.0], vec![0.0, 0.0, 0.0]]
}

#[test]
fn test_initop() {
    let mass = decay_mass();
    let y0 = vec![1.0, 2.0, 3.0];
    let dy0 = vec![4.0, 5.0, 6.0];
    let algebraic_indices = partition_indices_by_zero_diagonal(&mass);
    let mut initop = InitOp::new(3, 1, &y0, algebraic_indices, None, None).unwrap();

    let du_v = vec![dy0[0], dy0[1], y0[2]];
    let rhs = decay_rhs(0.1);
    let y_out = init_residual(&mut initop, &mass, &du_v, &rhs);
    assert_close(&y_out, &[-4.1, -5.2, 1.0], 1e-10);

    let rhs_jac = |_x: &[f64]| vec![vec![-0.1, 0.0, 0.0], vec![0.0, -0.1, 0.0], vec![0.0, -1.0, 1.0]];
    let jac = init_jacobian(&mut initop, &mass, &du_v, &rhs_jac);
    assert_eq!(jac[0][0], -1.0);
    assert_eq!(jac[0][1], 0.0);
    assert_eq!(jac[0][2], 0.0);
    assert_eq!(jac[1][0], 0.0);
    assert_eq!(jac[1][1], -1.0);
    assert_eq!(jac[1][2], 0.0);
    assert_eq!(jac[2][0], 0.0);
    assert_eq!(jac[2][1], 0.0);
    assert_eq!(jac[2][2], 1.0);
}

#[test]
fn initop_refreshes_algebraic_jacobian_at_candidate() {
    // rhs: y0 = -x0, y1 = x1^2 - x0; mass: diag(1, 0); initial state (1, 1)
    let mass = vec![vec![1.0, 0.0], vec![0.0, 0.0]];
    let y0 = vec![1.0, 1.0];
    let algebraic_indices = partition_indices_by_zero_diagonal(&mass);
    let mut initop = InitOp::new(2, 1, &y0, algebraic_indices, None, None).unwrap();
    let rhs_jac = |x: &[f64]| vec![vec![-1.0, 0.0], vec![-1.0, 2.0 * x[1]]];

    let first = vec![0.0, 1.0];
    let second = vec![0.0, 3.0];
    let first_jacobian = init_jacobian(&mut initop, &mass, &first, &rhs_jac);
    let second_jacobian = init_jacobian(&mut initop, &mass, &second, &rhs_jac);

    assert_eq!(first_jacobian[1][1], 2.0);
    assert_eq!(second_jacobian[1][1], 6.0);
}

#[test]
fn test_initop_batched() {
    let mass = decay_mass();
    let p = [0.1, 0.2];
    let y0 = vec![1.0, 1.0, 1.0, 1.0, 1.0, 1.0];
    let algebraic_indices = partition_indices_by_zero_diagonal(&mass);
    let mut initop = InitOp::new(3, 2, &y0, algebraic_indices, None, None).unwrap();
    let rhs = move |b: usize, x: &[f64], y: &mut [f64]| {
        y[0] = -p[b] * x[0];
        y[1] = -p[b] * x[1];
        y[2] = x[2] - x[1];
    };

    let du_v = vec![4.0, 5.0, 1.0, 4.0, 5.0, 1.0];
    let y_out = init_residual(&mut initop, &mass, &du_v, &rhs);
    assert_close(&y_out, &[-4.1, -5.1, 0.0, -4.2, -5.2, 0.0], 1e-10);

    let x0 = vec![-0.1, -0.1, 1.0, -0.2, -0.2, 1.0];
    let zero_out = init_residual(&mut initop, &mass, &x0, &rhs);
    assert_close(&zero_out, &[0.0; 6], 1e-10);
}

#[test]
fn initop_scatters_solution_into_states_and_rates() {
    let initop = InitOp::new(3, 2, &vec![0.0; 6], vec![1], None, None).unwrap();
    let soln = vec![10.0, 11.0, 12.0, 13.0, 14.0, 15.0];
    let mut y = vec![1.0, 2.0, 3.0, 4.0, 5.0, 6.0];
    let mut dy = vec![-1.0, -2.0, -3.0, -4.0, -5.0, -6.0];
    initop.scatter_soln(&soln, &mut y, &mut dy);
    assert_eq!(y, vec![1.0, 11.0, 3.0, 4.0, 14.0, 6.0]);
    assert_eq!(dy, vec![10.0, -2.0, 12.0, 13.0, -5.0, 15.0]);
}

#[test]
fn initop_direction_keeps_only_algebraic_entries() {
    let initop = InitOp::new(3, 1, &vec![0.0; 3], vec![0, 2], None, None).unwrap();
    let w = initop.algebraic_direction(&vec![7.0, 8.0, 9.0], 0.0);
    assert_eq!(w, vec![7.0, 0.0, 9.0]);
    assert_eq!(initop.position_mask(), &vec![true, false, true]);
    assert!(initop.has_algebraic());
}

#[test]
fn initop_jacobian_pattern_is_union_of_rhs_and_mass() {
    let mass = Sparsity::try_from_indices(3, 3, vec![(0, 0), (1, 1)]).unwrap();
    let rhs = Sparsity::try_from_indices(3, 3, vec![(2, 1), (2, 2), (0, 0)]).unwrap();
    let initop = InitOp::new(3, 1, &vec![0.0; 3], vec![2], Some(mass), Some(rhs)).unwrap();
    let pattern = initop.jacobian_sparsity().unwrap();
    let mut entries = pattern.indices().clone();
    entries.sort();
    entries.dedup();
    assert_eq!(entries, vec![(0, 0), (1, 1), (2, 1), (2, 2)]);
}

#[test]
fn initop_without_algebraic_states_uses_mass_pattern() {
    let mass = Sparsity::try_from_indices(2, 2, vec![(0, 0), (1, 1)]).unwrap();
    let rhs = Sparsity::try_from_indices(2, 2, vec![(0, 1)]).unwrap();
    let initop = InitOp::new(2, 1, &vec![0.0; 2], vec![], Some(mass), Some(rhs)).unwrap();
    assert_eq!(initop.jacobian_sparsity().unwrap().indices(), &vec![(0, 0), (1, 1)]);
    assert!(!initop.has_algebraic());
    let only_rhs = InitOp::new(2, 1, &vec![0.0; 2], vec![1], None, Some(Sparsity::try_from_indices(2, 2, vec![]).unwrap())).unwrap();
    assert!(only_rhs.jacobian_sparsity().is_none());
}

#[test]
fn initop_rejects_patterns_of_different_shapes() {
    let mass = Sparsity::try_from_indices(2, 2, vec![(0, 0)]).unwrap();
    let rhs = Sparsity::try_from_indices(3, 3, vec![(0, 0)]).unwrap();
    let error = InitOp::new(2, 1, &vec![0.0; 2], vec![1], Some(mass), Some(rhs)).unwrap_err();
    assert_eq!(error.kind(), OperatorErrorKind::Fatal);
    assert!(matches!(error.source(), MatrixError::UnionIncompatibleShapes));
}

#[test]
fn initop_accepts_algebraic_indices_in_any_order() {
    let mut initop = InitOp::new(3, 1, &vec![1.0, 2.0, 3.0], vec![2, 0], None, None).unwrap();
    assert_eq!(initop.algebraic_mask(), vec![true, false, true]);
    initop.refresh_candidate(&vec![7.0, 8.0, 9.0]);
    assert_eq!(initop.candidate(), &vec![7.0, 2.0, 9.0]);
}

#[test]
fn initop_without_algebraic_states_uses_negated_mass() {
    let mass = vec![vec![2.0, 1.0], vec![0.0, 3.0]];
    let mut initop = InitOp::new(2, 1, &vec![0.0; 2], vec![], None, None).unwrap();
    let rhs_jac = |_x: &[f64]| vec![vec![9.0, 9.0], vec![9.0, 9.0]];
    let jac = init_jacobian(&mut initop, &mass, &vec![0.0, 0.0], &rhs_jac);
    assert_eq!(jac, vec![vec![-2.0, -1.0], vec![0.0, -3.0]]);
}

#[test]
fn gathering_undoes_scatter() {
    let initop = InitOp::new(3, 1, &vec![0.0; 3], vec![1], None, None).unwrap();
    let soln = vec![5.0, 6.0, 7.0];
    let mut y = vec![0.0; 3];
    let mut dy = vec![0.0; 3];
    initop.scatter_soln(&soln, &mut y, &mut dy);
    let mask = initop.algebraic_mask();
    let gathered: Vec<f64> = (0..3).map(|i| if mask[i] { y[i] } else { dy[i] }).collect();
    assert_eq!(gathered, soln);
}
