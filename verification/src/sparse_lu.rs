//! The state of the sparse LU linear solver: the matrix whose structure was
//! analysed, the symbolic factorisation, and the numeric factors (one per
//! batch).  The factorisations themselves are computed by the caller with a
//! sparse linear algebra library; this type decides which step may run and
//! which error a step out of order reports.
use vstd::prelude::*;
use crate::error::LinearSolverError;

verus! {

/// A linear solver that uses a sparse LU decomposition.
///
/// `M` is the matrix (all batches), `Sym` the symbolic factorisation and
/// `L` the numeric factorisation of one batch.
#[derive(Debug)]
pub struct FaerSparseLU<M, Sym, L> {
    lu: Vec<L>,
    lu_symbolic: Option<Sym>,
    matrix: Option<M>,
}

impl<M, Sym, L> FaerSparseLU<M, Sym, L> {
    /// The numeric factors.
    pub closed spec fn spec_lu(&self) -> Seq<L> {
        self.lu@
    }

    /// The symbolic factorisation, once the sparsity has been set.
    pub closed spec fn spec_symbolic(&self) -> Option<Sym> {
        self.lu_symbolic
    }

    /// The matrix, once the sparsity has been set.
    pub closed spec fn spec_matrix(&self) -> Option<M> {
        self.matrix
    }

    /// A solver with nothing set up.
    pub fn new() -> (s: Self)
        ensures
            s.spec_lu().len() == 0,
            s.spec_symbolic() is None,
            s.spec_matrix() is None,
    {
        FaerSparseLU { lu: Vec::new(), matrix: None, lu_symbolic: None }
    }

    /// Setting the sparsity starts by forgetting the factors, the symbolic
    /// factorisation and the matrix.
    pub fn clear_setup(&mut self)
        ensures
            final(self).spec_lu().len() == 0,
            final(self).spec_symbolic() is None,
            final(self).spec_matrix() is None,
    {
        self.lu.clear();
        self.lu_symbolic = None;
        self.matrix = None;
    }

    /// Setting the sparsity ends by keeping the matrix built from the
    /// pattern and its symbolic factorisation.
    pub fn set_setup(&mut self, matrix: M, symbolic: Sym)
        ensures
            final(self).spec_matrix() == Some(matrix),
            final(self).spec_symbolic() == Some(symbolic),
            final(self).spec_lu() == old(self).spec_lu(),
    {
        self.lu_symbolic = Some(symbolic);
        self.matrix = Some(matrix);
    }

    /// Setting the linearisation starts by forgetting the factors and
    /// handing out the matrix to be refilled; it fails with
    /// `LinearSolverNotSetup` when the sparsity has not been set.
    pub fn begin_linearisation(&mut self) -> (r: Result<&mut M, LinearSolverError>)
        ensures
            final(self).spec_lu().len() == 0,
            final(self).spec_symbolic() == old(self).spec_symbolic(),
            old(self).spec_matrix() is None ==> (r matches Err(e) && e is LinearSolverNotSetup
                && final(self).spec_matrix() is None),
            old(self).spec_matrix() is Some ==> (r matches Ok(m) && *m == old(self).spec_matrix()->0
                && final(self).spec_matrix() == Some(*final(m))),
    {
        self.lu.clear();
        match self.matrix.as_mut() {
            Some(m) => Ok(m),
            None => Err(LinearSolverError::LinearSolverNotSetup),
        }
    }

    /// The symbolic factorisation to factor the refilled matrix with; fails
    /// with `LinearSolverNotSetup` when the sparsity has not been set.
    pub fn symbolic(&self) -> (r: Result<&Sym, LinearSolverError>)
        ensures
            self.spec_symbolic() is None ==> (r matches Err(e) && e is LinearSolverNotSetup),
            self.spec_symbolic() is Some ==> (r matches Ok(s) && *s == self.spec_symbolic()->0),
    {
        match &self.lu_symbolic {
            Some(s) => Ok(s),
            None => Err(LinearSolverError::LinearSolverNotSetup),
        }
    }

    /// The matrix, once the sparsity has been set.
    pub fn matrix(&self) -> (r: Option<&M>)
        ensures
            r is Some <==> self.spec_matrix() is Some,
            r matches Some(m) ==> *m == self.spec_matrix()->0,
    {
        match &self.matrix {
            Some(m) => Some(m),
            None => None,
        }
    }

    /// Setting the linearisation ends by keeping the numeric factors.
    pub fn set_factors(&mut self, lu: Vec<L>)
        ensures
            final(self).spec_lu() == lu@,
            final(self).spec_symbolic() == old(self).spec_symbolic(),
            final(self).spec_matrix() == old(self).spec_matrix(),
    {
        self.lu = lu;
    }

    /// The numeric factors to solve with; fails with `LuNotInitialized`
    /// when no linearisation has been factored since the last setup.
    pub fn factors(&self) -> (r: Result<&Vec<L>, LinearSolverError>)
        ensures
            self.spec_lu().len() == 0 ==> (r matches Err(e) && e is LuNotInitialized),
            self.spec_lu().len() > 0 ==> (r matches Ok(v) && v@ == self.spec_lu()),
    {
        if self.lu.len() == 0 {
            Err(LinearSolverError::LuNotInitialized)
        } else {
            Ok(&self.lu)
        }
    }
}

/// Which factorisation solves batch `batch` of `nb` right-hand sides when
/// there are `nlu` factorisations: the only one, or the batch's own.
pub fn factor_for_batch(nlu: usize, nb: usize, batch: usize) -> (k: usize)
    requires
        nlu == 1 || nlu == nb,
        batch < nb,
    ensures
        k == if nlu == 1 { 0 } else { batch },
        k < nlu,
{
    if nlu == 1 {
        0
    } else {
        batch
    }
}

} // verus!
