//! Operators built from user closures whose callbacks can fail: the
//! bookkeeping around the callbacks (shape, call statistics, the Jacobian or
//! matrix sparsity found by probing, and its column colouring).
//!
//! The closures themselves are stored and handed out unchanged; evaluating
//! them is the caller's work.
use vstd::prelude::*;
use crate::error::{LaError, MatrixError};
use crate::sparsity::{in_bounds, greedy_coloring, JacobianColoring, Sparsity};

verus! {

/// Counts of the evaluations performed by an operator.
#[derive(Clone, Copy, Debug, PartialEq, Eq, Structural)]
pub struct OpStatistics {
    pub number_of_calls: usize,
    pub number_of_jac_muls: usize,
    pub number_of_matrix_evals: usize,
    pub number_of_jac_adj_muls: usize,
}

impl OpStatistics {
    /// The counts before any evaluation.
    pub open spec fn new_spec() -> OpStatistics {
        OpStatistics { number_of_calls: 0, number_of_jac_muls: 0, number_of_matrix_evals: 0, number_of_jac_adj_muls: 0 }
    }

    /// No evaluation counted yet.
    pub fn new() -> (s: Self)
        ensures
            s == Self::new_spec(),
    {
        OpStatistics { number_of_calls: 0, number_of_jac_muls: 0, number_of_matrix_evals: 0, number_of_jac_adj_muls: 0 }
    }

    /// Count one evaluation of the operator.
    pub fn increment_call(&mut self)
        requires
            old(self).number_of_calls < usize::MAX,
        ensures
            *final(self) == (OpStatistics { number_of_calls: (old(self).number_of_calls + 1) as usize, ..*old(self) }),
    {
        self.number_of_calls = self.number_of_calls + 1;
    }

    /// Count one Jacobian-vector product.
    pub fn increment_jac_mul(&mut self)
        requires
            old(self).number_of_jac_muls < usize::MAX,
        ensures
            *final(self) == (OpStatistics { number_of_jac_muls: (old(self).number_of_jac_muls + 1) as usize, ..*old(self) }),
    {
        self.number_of_jac_muls = self.number_of_jac_muls + 1;
    }

    /// Count one evaluation of a whole matrix.
    pub fn increment_matrix(&mut self)
        requires
            old(self).number_of_matrix_evals < usize::MAX,
        ensures
            *final(self) == (OpStatistics {
                number_of_matrix_evals: (old(self).number_of_matrix_evals + 1) as usize,
                ..*old(self)
            }),
    {
        self.number_of_matrix_evals = self.number_of_matrix_evals + 1;
    }

    /// Count one adjoint Jacobian-vector product.
    pub fn increment_jac_adj_mul(&mut self)
        requires
            old(self).number_of_jac_adj_muls < usize::MAX,
        ensures
            *final(self) == (OpStatistics {
                number_of_jac_adj_muls: (old(self).number_of_jac_adj_muls + 1) as usize,
                ..*old(self)
            }),
    {
        self.number_of_jac_adj_muls = self.number_of_jac_adj_muls + 1;
    }
}

/// What probing an operator found: the pattern of an `nout` by `nstates`
/// operator with nonzeros at `non_zeros`, and the greedy colouring of its
/// columns.
pub open spec fn discovered(
    nout: nat,
    nstates: nat,
    non_zeros: Seq<(usize, usize)>,
    sparsity: Sparsity,
    coloring: JacobianColoring,
) -> bool {
    &&& sparsity.wf()
    &&& sparsity@.nrows == nout
    &&& sparsity@.ncols == nstates
    &&& sparsity@.entries == non_zeros.to_set()
    &&& sparsity.spec_indices() == non_zeros
    &&& greedy_coloring(non_zeros, nstates, coloring.spec_colors(), coloring.spec_ncolors())
}

/// Builds the pattern and the colouring from the nonzeros found by probing.
fn discover(nout: usize, nstates: usize, non_zeros: Vec<(usize, usize)>) -> (r: Result<
    (Sparsity, JacobianColoring),
    MatrixError,
>)
    ensures
        r is Ok <==> in_bounds(nout as nat, nstates as nat, non_zeros@),
        r matches Ok((s, c)) ==> discovered(nout as nat, nstates as nat, non_zeros@, s, c),
        r matches Err(e) ==> e is IndexOutOfBounds,
{
    let sparsity = Sparsity::try_from_indices(nout, nstates, non_zeros)?;
    let coloring = JacobianColoring::new(&sparsity);
    Ok((sparsity, coloring))
}

/// A nonlinear operator whose value and Jacobian-vector callbacks can fail.
///
/// Callback failures retain their operator-error classification and source
/// as they propagate through the solvers.
pub struct FallibleClosure<F, G, C> {
    func: F,
    jacobian_action: G,
    nstates: usize,
    nout: usize,
    nparams: usize,
    coloring: Option<JacobianColoring>,
    sparsity: Option<Sparsity>,
    statistics: OpStatistics,
    ctx: C,
}

impl<F, G, C> FallibleClosure<F, G, C> {
    pub closed spec fn spec_func(&self) -> F {
        self.func
    }

    pub closed spec fn spec_jacobian_action(&self) -> G {
        self.jacobian_action
    }

    pub closed spec fn spec_nstates(&self) -> nat {
        self.nstates as nat
    }

    pub closed spec fn spec_nout(&self) -> nat {
        self.nout as nat
    }

    pub closed spec fn spec_nparams(&self) -> nat {
        self.nparams as nat
    }

    pub closed spec fn spec_coloring(&self) -> Option<JacobianColoring> {
        self.coloring
    }

    pub closed spec fn spec_sparsity(&self) -> Option<Sparsity> {
        self.sparsity
    }

    pub closed spec fn spec_statistics(&self) -> OpStatistics {
        self.statistics
    }

    pub closed spec fn spec_context(&self) -> C {
        self.ctx
    }

    /// The callbacks and the context agree.
    pub open spec fn same_callbacks(&self, other: &Self) -> bool {
        &&& self.spec_func() == other.spec_func()
        &&& self.spec_jacobian_action() == other.spec_jacobian_action()
        &&& self.spec_context() == other.spec_context()
    }

    /// Everything but the sparsity, the colouring and the statistics agrees.
    pub open spec fn same_setup(&self, other: &Self) -> bool {
        &&& self.spec_func() == other.spec_func()
        &&& self.spec_jacobian_action() == other.spec_jacobian_action()
        &&& self.spec_nstates() == other.spec_nstates()
        &&& self.spec_nout() == other.spec_nout()
        &&& self.spec_nparams() == other.spec_nparams()
        &&& self.spec_context() == other.spec_context()
    }

    /// Construct a fallible closure operator, with no sparsity known and no
    /// evaluation counted.
    pub fn new(func: F, jacobian_action: G, nstates: usize, nout: usize, nparams: usize, ctx: C) -> (s: Self)
        ensures
            s.spec_func() == func,
            s.spec_jacobian_action() == jacobian_action,
            s.spec_nstates() == nstates,
            s.spec_nout() == nout,
            s.spec_nparams() == nparams,
            s.spec_context() == ctx,
            s.spec_coloring() is None,
            s.spec_sparsity() is None,
            s.spec_statistics() == OpStatistics::new_spec(),
    {
        FallibleClosure {
            func,
            jacobian_action,
            nstates,
            nparams,
            nout,
            statistics: OpStatistics::new(),
            coloring: None,
            sparsity: None,
            ctx,
        }
    }

    /// Record the Jacobian pattern found by probing the operator at a point
    /// (the nonzero positions `non_zeros`) and colour its columns.  Fails,
    /// leaving the operator as it was, when a position lies outside the
    /// `nout` by `nstates` shape.
    pub fn calculate_sparsity<S>(&mut self, non_zeros: Vec<(usize, usize)>) -> (r: Result<(), LaError<S>>)
        ensures
            r is Ok <==> in_bounds(old(self).spec_nout(), old(self).spec_nstates(), non_zeros@),
            final(self).same_setup(old(self)),
            final(self).spec_statistics() == old(self).spec_statistics(),
            r is Ok ==> (final(self).spec_sparsity() matches Some(s) && final(self).spec_coloring() matches Some(c)
                && discovered(old(self).spec_nout(), old(self).spec_nstates(), non_zeros@, s, c)),
            r matches Err(e) ==> (e matches LaError::MatrixError(m) && m is IndexOutOfBounds),
            r is Err ==> final(self).spec_sparsity() == old(self).spec_sparsity()
                && final(self).spec_coloring() == old(self).spec_coloring(),
    {
        match discover(self.nout, self.nstates, non_zeros) {
            Ok((sparsity, coloring)) => {
                self.sparsity = Some(sparsity);
                self.coloring = Some(coloring);
                Ok(())
            },
            Err(e) => Err(LaError::MatrixError(e)),
        }
    }

    /// The operator's value callback.
    pub fn func(&self) -> (f: &F)
        ensures
            *f == self.spec_func(),
    {
        &self.func
    }

    /// The operator's Jacobian-vector callback.
    pub fn jacobian_action(&self) -> (g: &G)
        ensures
            *g == self.spec_jacobian_action(),
    {
        &self.jacobian_action
    }

    pub fn context(&self) -> (c: &C)
        ensures
            *c == self.spec_context(),
    {
        &self.ctx
    }

    pub fn nstates(&self) -> (n: usize)
        ensures
            n == self.spec_nstates(),
    {
        self.nstates
    }

    pub fn nout(&self) -> (n: usize)
        ensures
            n == self.spec_nout(),
    {
        self.nout
    }

    pub fn nparams(&self) -> (n: usize)
        ensures
            n == self.spec_nparams(),
    {
        self.nparams
    }

    pub fn set_nstates(&mut self, nstates: usize)
        ensures
            final(self).spec_nstates() == nstates,
            final(self).spec_nout() == old(self).spec_nout(),
            final(self).spec_nparams() == old(self).spec_nparams(),
            final(self).spec_sparsity() == old(self).spec_sparsity(),
            final(self).spec_coloring() == old(self).spec_coloring(),
            final(self).spec_statistics() == old(self).spec_statistics(),
            final(self).same_callbacks(old(self)),
    {
        self.nstates = nstates;
    }

    pub fn set_nout(&mut self, nout: usize)
        ensures
            final(self).spec_nout() == nout,
            final(self).spec_nstates() == old(self).spec_nstates(),
            final(self).spec_nparams() == old(self).spec_nparams(),
            final(self).spec_sparsity() == old(self).spec_sparsity(),
            final(self).spec_coloring() == old(self).spec_coloring(),
            final(self).spec_statistics() == old(self).spec_statistics(),
            final(self).same_callbacks(old(self)),
    {
        self.nout = nout;
    }

    pub fn set_nparams(&mut self, nparams: usize)
        ensures
            final(self).spec_nparams() == nparams,
            final(self).spec_nstates() == old(self).spec_nstates(),
            final(self).spec_nout() == old(self).spec_nout(),
            final(self).spec_sparsity() == old(self).spec_sparsity(),
            final(self).spec_coloring() == old(self).spec_coloring(),
            final(self).spec_statistics() == old(self).spec_statistics(),
            final(self).same_callbacks(old(self)),
    {
        self.nparams = nparams;
    }

    /// The evaluation counts so far.
    pub fn statistics(&self) -> (s: OpStatistics)
        ensures
            s == self.spec_statistics(),
    {
        self.statistics
    }

    /// The Jacobian pattern, when probing has found one.
    pub fn jacobian_sparsity(&self) -> (s: Option<Sparsity>)
        ensures
            s is Some <==> self.spec_sparsity() is Some,
            s matches Some(p) ==> p@ == self.spec_sparsity()->0@ && p.spec_indices()
                == self.spec_sparsity()->0.spec_indices(),
    {
        match &self.sparsity {
            Some(s) => Some(s.duplicate()),
            None => None,
        }
    }

    /// The column colouring, when probing has found a pattern.
    pub fn coloring(&self) -> (c: Option<&JacobianColoring>)
        ensures
            c matches Some(k) ==> self.spec_coloring() == Some(*k),
            c is None ==> self.spec_coloring() is None,
    {
        match &self.coloring {
            Some(c) => Some(c),
            None => None,
        }
    }

    /// Count an evaluation of the value callback.
    pub fn record_call(&mut self)
        requires
            old(self).spec_statistics().number_of_calls < usize::MAX,
        ensures
            final(self).spec_statistics() == (OpStatistics {
                number_of_calls: (old(self).spec_statistics().number_of_calls + 1) as usize,
                ..old(self).spec_statistics()
            }),
            final(self).same_setup(old(self)),
            final(self).spec_sparsity() == old(self).spec_sparsity(),
            final(self).spec_coloring() == old(self).spec_coloring(),
    {
        self.statistics.increment_call();
    }

    /// Count an evaluation of the Jacobian-vector callback.
    pub fn record_jac_mul(&mut self)
        requires
            old(self).spec_statistics().number_of_jac_muls < usize::MAX,
        ensures
            final(self).spec_statistics() == (OpStatistics {
                number_of_jac_muls: (old(self).spec_statistics().number_of_jac_muls + 1) as usize,
                ..old(self).spec_statistics()
            }),
            final(self).same_setup(old(self)),
            final(self).spec_sparsity() == old(self).spec_sparsity(),
            final(self).spec_coloring() == old(self).spec_coloring(),
    {
        self.statistics.increment_jac_mul();
    }

    /// Count an evaluation of the whole Jacobian.
    pub fn record_matrix(&mut self)
        requires
            old(self).spec_statistics().number_of_matrix_evals < usize::MAX,
        ensures
            final(self).spec_statistics() == (OpStatistics {
                number_of_matrix_evals: (old(self).spec_statistics().number_of_matrix_evals + 1) as usize,
                ..old(self).spec_statistics()
            }),
            final(self).same_setup(old(self)),
            final(self).spec_sparsity() == old(self).spec_sparsity(),
            final(self).spec_coloring() == old(self).spec_coloring(),
    {
        self.statistics.increment_matrix();
    }
}

/// A linear operator whose matrix-vector callback can fail.
pub struct FallibleLinearClosure<F, C> {
    func: F,
    nstates: usize,
    nout: usize,
    nparams: usize,
    coloring: Option<JacobianColoring>,
    sparsity: Option<Sparsity>,
    statistics: OpStatistics,
    ctx: C,
}

impl<F, C> FallibleLinearClosure<F, C> {
    pub closed spec fn spec_func(&self) -> F {
        self.func
    }

    pub closed spec fn spec_nstates(&self) -> nat {
        self.nstates as nat
    }

    pub closed spec fn spec_nout(&self) -> nat {
        self.nout as nat
    }

    pub closed spec fn spec_nparams(&self) -> nat {
        self.nparams as nat
    }

    pub closed spec fn spec_coloring(&self) -> Option<JacobianColoring> {
        self.coloring
    }

    pub closed spec fn spec_sparsity(&self) -> Option<Sparsity> {
        self.sparsity
    }

    pub closed spec fn spec_statistics(&self) -> OpStatistics {
        self.statistics
    }

    pub closed spec fn spec_context(&self) -> C {
        self.ctx
    }

    /// The callback and the context agree.
    pub open spec fn same_callbacks(&self, other: &Self) -> bool {
        &&& self.spec_func() == other.spec_func()
        &&& self.spec_context() == other.spec_context()
    }

    /// Everything but the sparsity, the colouring and the statistics agrees.
    pub open spec fn same_setup(&self, other: &Self) -> bool {
        &&& self.spec_func() == other.spec_func()
        &&& self.spec_nstates() == other.spec_nstates()
        &&& self.spec_nout() == other.spec_nout()
        &&& self.spec_nparams() == other.spec_nparams()
        &&& self.spec_context() == other.spec_context()
    }

    /// Construct a fallible linear closure operator, with no sparsity known
    /// and no evaluation counted.
    pub fn new(func: F, nstates: usize, nout: usize, nparams: usize, ctx: C) -> (s: Self)
        ensures
            s.spec_func() == func,
            s.spec_nstates() == nstates,
            s.spec_nout() == nout,
            s.spec_nparams() == nparams,
            s.spec_context() == ctx,
            s.spec_coloring() is None,
            s.spec_sparsity() is None,
            s.spec_statistics() == OpStatistics::new_spec(),
    {
        FallibleLinearClosure {
            func,
            nstates,
            statistics: OpStatistics::new(),
            nout,
            nparams,
            coloring: None,
            sparsity: None,
            ctx,
        }
    }

    /// Record the matrix pattern found by probing the operator at a time
    /// (the nonzero positions `non_zeros`) and colour its columns.  Fails,
    /// leaving the operator as it was, when a position lies outside the
    /// `nout` by `nstates` shape.
    pub fn calculate_sparsity<S>(&mut self, non_zeros: Vec<(usize, usize)>) -> (r: Result<(), LaError<S>>)
        ensures
            r is Ok <==> in_bounds(old(self).spec_nout(), old(self).spec_nstates(), non_zeros@),
            final(self).same_setup(old(self)),
            final(self).spec_statistics() == old(self).spec_statistics(),
            r is Ok ==> (final(self).spec_sparsity() matches Some(s) && final(self).spec_coloring() matches Some(c)
                && discovered(old(self).spec_nout(), old(self).spec_nstates(), non_zeros@, s, c)),
            r matches Err(e) ==> (e matches LaError::MatrixError(m) && m is IndexOutOfBounds),
            r is Err ==> final(self).spec_sparsity() == old(self).spec_sparsity()
                && final(self).spec_coloring() == old(self).spec_coloring(),
    {
        match discover(self.nout, self.nstates, non_zeros) {
            Ok((sparsity, coloring)) => {
                self.sparsity = Some(sparsity);
                self.coloring = Some(coloring);
                Ok(())
            },
            Err(e) => Err(LaError::MatrixError(e)),
        }
    }

    /// The operator's matrix-vector callback.
    pub fn func(&self) -> (f: &F)
        ensures
            *f == self.spec_func(),
    {
        &self.func
    }

    pub fn context(&self) -> (c: &C)
        ensures
            *c == self.spec_context(),
    {
        &self.ctx
    }

    pub fn nstates(&self) -> (n: usize)
        ensures
            n == self.spec_nstates(),
    {
        self.nstates
    }

    pub fn nout(&self) -> (n: usize)
        ensures
            n == self.spec_nout(),
    {
        self.nout
    }

    pub fn nparams(&self) -> (n: usize)
        ensures
            n == self.spec_nparams(),
    {
        self.nparams
    }

    pub fn set_nstates(&mut self, nstates: usize)
        ensures
            final(self).spec_nstates() == nstates,
            final(self).spec_nout() == old(self).spec_nout(),
            final(self).spec_nparams() == old(self).spec_nparams(),
            final(self).spec_sparsity() == old(self).spec_sparsity(),
            final(self).spec_coloring() == old(self).spec_coloring(),
            final(self).spec_statistics() == old(self).spec_statistics(),
            final(self).same_callbacks(old(self)),
    {
        self.nstates = nstates;
    }

    pub fn set_nout(&mut self, nout: usize)
        ensures
            final(self).spec_nout() == nout,
            final(self).spec_nstates() == old(self).spec_nstates(),
            final(self).spec_nparams() == old(self).spec_nparams(),
            final(self).spec_sparsity() == old(self).spec_sparsity(),
            final(self).spec_coloring() == old(self).spec_coloring(),
            final(self).spec_statistics() == old(self).spec_statistics(),
            final(self).same_callbacks(old(self)),
    {
        self.nout = nout;
    }

    pub fn set_nparams(&mut self, nparams: usize)
        ensures
            final(self).spec_nparams() == nparams,
            final(self).spec_nstates() == old(self).spec_nstates(),
            final(self).spec_nout() == old(self).spec_nout(),
            final(self).spec_sparsity() == old(self).spec_sparsity(),
            final(self).spec_coloring() == old(self).spec_coloring(),
            final(self).spec_statistics() == old(self).spec_statistics(),
            final(self).same_callbacks(old(self)),
    {
        self.nparams = nparams;
    }

    /// The evaluation counts so far.
    pub fn statistics(&self) -> (s: OpStatistics)
        ensures
            s == self.spec_statistics(),
    {
        self.statistics
    }

    /// The matrix pattern, when probing has found one.
    pub fn sparsity(&self) -> (s: Option<Sparsity>)
        ensures
            s is Some <==> self.spec_sparsity() is Some,
            s matches Some(p) ==> p@ == self.spec_sparsity()->0@ && p.spec_indices()
                == self.spec_sparsity()->0.spec_indices(),
    {
        match &self.sparsity {
            Some(s) => Some(s.duplicate()),
            None => None,
        }
    }

    /// The column colouring, when probing has found a pattern.
    pub fn coloring(&self) -> (c: Option<&JacobianColoring>)
        ensures
            c matches Some(k) ==> self.spec_coloring() == Some(*k),
            c is None ==> self.spec_coloring() is None,
    {
        match &self.coloring {
            Some(c) => Some(c),
            None => None,
        }
    }

    /// Count an evaluation of the matrix-vector callback.
    pub fn record_call(&mut self)
        requires
            old(self).spec_statistics().number_of_calls < usize::MAX,
        ensures
            final(self).spec_statistics() == (OpStatistics {
                number_of_calls: (old(self).spec_statistics().number_of_calls + 1) as usize,
                ..old(self).spec_statistics()
            }),
            final(self).same_setup(old(self)),
            final(self).spec_sparsity() == old(self).spec_sparsity(),
            final(self).spec_coloring() == old(self).spec_coloring(),
    {
        self.statistics.increment_call();
    }

    /// Count an evaluation of the whole matrix.
    pub fn record_matrix(&mut self)
        requires
            old(self).spec_statistics().number_of_matrix_evals < usize::MAX,
        ensures
            final(self).spec_statistics() == (OpStatistics {
                number_of_matrix_evals: (old(self).spec_statistics().number_of_matrix_evals + 1) as usize,
                ..old(self).spec_statistics()
            }),
            final(self).same_setup(old(self)),
            final(self).spec_sparsity() == old(self).spec_sparsity(),
            final(self).spec_coloring() == old(self).spec_coloring(),
    {
        self.statistics.increment_matrix();
    }
}

} // verus!
