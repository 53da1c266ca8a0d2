//! Index logic of the operator that computes consistent initial conditions
//! for a differential-algebraic system, after Brown, Hindmarsh and Petzold
//! (1998), "Consistent initial condition calculation for
//! differential-algebraic systems", SIAM J. Sci. Comput. 19(5).
//!
//! With differential states `u` and algebraic states `v`, the equations are
//! `h(t, u, v, du) = -M_u du + f(u, v) = 0` and `g(t, u, v) = 0`, solved for
//! `(du, v)`.  The unknown vector therefore holds state derivatives at the
//! differential positions and states at the algebraic ones.  The Jacobian is
//! `(-M_u, df/dv; 0, dg/dv)`: its algebraic columns come from the right-hand
//! side Jacobian and its differential columns from the negated mass matrix,
//! restricted to the differential block.
//!
//! Vectors may hold several batches of states one after another; the same
//! algebraic indices apply to every batch.
use vstd::prelude::*;
use crate::error::{MatrixError, OperatorError, OperatorErrorKind};
use crate::sparsity::{Sparsity, SparsityView};

verus! {

/// State indices: each below `n`, and no more of them than states.
pub open spec fn valid_algebraic_indices(n: nat, alg: Seq<usize>) -> bool {
    &&& forall|k: int| 0 <= k < alg.len() ==> #[trigger] alg[k] < n
    &&& alg.len() <= n
}

/// For each of the `n` states, whether it is algebraic.
pub open spec fn algebraic_mask(n: nat, alg: Seq<usize>) -> Seq<bool> {
    Seq::new(n, |i: int| alg.contains(i as usize))
}

/// The algebraic mask of `n` states has one entry per state, and marks a
/// state exactly when it is one of the algebraic indices.
pub proof fn lemma_algebraic_mask_marks_indices(n: nat, alg: Seq<usize>)
    requires
        valid_algebraic_indices(n, alg),
        n <= usize::MAX,
    ensures
        algebraic_mask(n, alg).len() == n,
        forall|k: int| 0 <= k < alg.len() ==> #[trigger] algebraic_mask(n, alg)[alg[k] as int],
        forall|i: int|
            0 <= i < n && #[trigger] algebraic_mask(n, alg)[i] ==> exists|k: int| 0 <= k < alg.len() && alg[k] == i,
{
    assert forall|k: int| 0 <= k < alg.len() implies #[trigger] algebraic_mask(n, alg)[alg[k] as int] by {
        assert(alg.contains(alg[k]));
    }
    assert forall|i: int| 0 <= i < n && #[trigger] algebraic_mask(n, alg)[i] implies exists|k: int|
        0 <= k < alg.len() && alg[k] == i by {
        assert(alg.contains(i as usize));
    }
}

/// `mask` repeated once per batch.
pub open spec fn batched(mask: Seq<bool>, nbatch: nat) -> Seq<bool>
    decreases nbatch,
{
    if nbatch == 0 {
        Seq::empty()
    } else {
        batched(mask, (nbatch - 1) as nat) + mask
    }
}

/// The pattern of the initial-condition Jacobian.  Without algebraic states
/// it is the mass pattern.  Otherwise it is the union of the right-hand side
/// Jacobian pattern and the mass pattern when both are known (`None` inside
/// `Some` when their shapes differ), and unknown when one of them is.
pub open spec fn init_jacobian_pattern(
    has_algebraic: bool,
    mass: Option<SparsityView>,
    rhs: Option<SparsityView>,
) -> Option<Option<SparsityView>> {
    if !has_algebraic {
        Some(mass)
    } else {
        match (mass, rhs) {
            (Some(m), Some(r)) => if m.nrows == r.nrows && m.ncols == r.ncols {
                Some(Some(SparsityView { nrows: r.nrows, ncols: r.ncols, entries: r.entries.union(m.entries) }))
            } else {
                None
            },
            _ => Some(None),
        }
    }
}

/// The Jacobian pattern of the initial-condition operator fails to exist
/// exactly when there are algebraic states and both the mass pattern and the
/// right-hand side pattern are known with different shapes.  Without
/// algebraic states it is the mass pattern; with them it is unknown when
/// either pattern is, and otherwise holds the nonzeros of both.
pub proof fn lemma_init_pattern_fails_only_on_shape_mismatch(
    has_algebraic: bool,
    mass: Option<SparsityView>,
    rhs: Option<SparsityView>,
)
    ensures
        init_jacobian_pattern(has_algebraic, mass, rhs) is None <==> (has_algebraic && mass is Some && rhs is Some
            && (mass->0.nrows != rhs->0.nrows || mass->0.ncols != rhs->0.ncols)),
        !has_algebraic ==> init_jacobian_pattern(has_algebraic, mass, rhs) == Some(mass),
        has_algebraic && (mass is None || rhs is None) ==> init_jacobian_pattern(has_algebraic, mass, rhs) == Some(
            None::<SparsityView>,
        ),
        has_algebraic && mass is Some && rhs is Some && mass->0.nrows == rhs->0.nrows && mass->0.ncols
            == rhs->0.ncols ==> init_jacobian_pattern(has_algebraic, mass, rhs) == Some(
            Some(
                SparsityView {
                    nrows: mass->0.nrows,
                    ncols: mass->0.ncols,
                    entries: mass->0.entries.union(rhs->0.entries),
                },
            ),
        ),
{
    if has_algebraic && mass is Some && rhs is Some {
        assert(rhs->0.entries.union(mass->0.entries) =~= mass->0.entries.union(rhs->0.entries));
    }
}

/// The view of an optional pattern.
pub open spec fn opt_view(s: Option<Sparsity>) -> Option<SparsityView> {
    match s {
        Some(p) => Some(p@),
        None => None,
    }
}

/// A well-formed optional pattern.
pub open spec fn opt_wf(s: Option<Sparsity>) -> bool {
    match s {
        Some(p) => p.wf(),
        None => true,
    }
}

pub proof fn lemma_batched_len(mask: Seq<bool>, nbatch: nat)
    ensures
        batched(mask, nbatch).len() == mask.len() * nbatch,
    decreases nbatch,
{
    if nbatch > 0 {
        lemma_batched_len(mask, (nbatch - 1) as nat);
        assert(mask.len() * nbatch == mask.len() * (nbatch - 1) + mask.len()) by (nonlinear_arith)
            requires
                nbatch > 0,
        ;
    } else {
        assert(mask.len() * nbatch == 0) by (nonlinear_arith)
            requires
                nbatch == 0,
        ;
    }
}

/// Position `b * n + i` of a batched vector is state `i` of batch `b`: the
/// batched mask there is the mask of state `i`.
pub proof fn lemma_batched_index(mask: Seq<bool>, nbatch: nat, b: nat, i: nat)
    requires
        b < nbatch,
        i < mask.len(),
    ensures
        batched(mask, nbatch).len() == mask.len() * nbatch,
        b * mask.len() + i < mask.len() * nbatch,
        batched(mask, nbatch)[(b * mask.len() + i) as int] == mask[i as int],
    decreases nbatch,
{
    let n = mask.len();
    lemma_batched_len(mask, nbatch);
    lemma_batched_len(mask, (nbatch - 1) as nat);
    assert(n * nbatch == n * (nbatch - 1) + n) by (nonlinear_arith)
        requires
            nbatch > 0,
    ;
    if b + 1 < nbatch {
        lemma_batched_index(mask, (nbatch - 1) as nat, b, i);
        assert(b * n + i < n * (nbatch - 1));
    } else {
        assert(b * n == n * (nbatch - 1)) by (nonlinear_arith)
            requires
                b + 1 == nbatch,
        ;
    }
}

/// Reads a solution `(du, v)` back out of states `y` and rates `dy`: the
/// algebraic positions from `y`, the others from `dy`.
pub open spec fn gathered<T>(mask: Seq<bool>, y: Seq<T>, dy: Seq<T>) -> Seq<T> {
    Seq::new(mask.len(), |p: int| if mask[p] { y[p] } else { dy[p] })
}

/// With a single batch the position mask is the mask of the states.
pub proof fn lemma_single_batch_mask(mask: Seq<bool>)
    ensures
        batched(mask, 1) == mask,
{
    assert(batched(mask, 0) =~= Seq::<bool>::empty());
    assert(batched(mask, 1) =~= mask);
}

/// The consistent-initial-condition operator.
#[derive(Debug)]
pub struct InitOp<T> {
    y0: Vec<T>,
    algebraic_indices: Vec<usize>,
    nstates: usize,
    nbatch: usize,
    is_algebraic: Vec<bool>,
    position_mask: Vec<bool>,
    jacobian_sparsity: Option<Sparsity>,
}

impl<T> InitOp<T> {
    /// The masks agree with the algebraic indices, the candidate has one
    /// entry per position and the Jacobian pattern is well formed.
    pub closed spec fn wf(self) -> bool {
        &&& valid_algebraic_indices(self.nstates as nat, self.algebraic_indices@)
        &&& self.is_algebraic@ == algebraic_mask(self.nstates as nat, self.algebraic_indices@)
        &&& self.position_mask@ == batched(self.is_algebraic@, self.nbatch as nat)
        &&& opt_wf(self.jacobian_sparsity)
    }

    /// The current candidate state: the initial state with the algebraic
    /// entries of the latest iterate.
    pub closed spec fn spec_candidate(self) -> Seq<T> {
        self.y0@
    }

    pub closed spec fn spec_algebraic_indices(self) -> Seq<usize> {
        self.algebraic_indices@
    }

    pub closed spec fn spec_nstates(self) -> nat {
        self.nstates as nat
    }

    pub closed spec fn spec_nbatch(self) -> nat {
        self.nbatch as nat
    }

    pub closed spec fn spec_jacobian_sparsity(self) -> Option<Sparsity> {
        self.jacobian_sparsity
    }

    /// For each position of a (batched) vector, whether it holds an
    /// algebraic state.
    pub open spec fn spec_position_mask(self) -> Seq<bool> {
        batched(algebraic_mask(self.spec_nstates(), self.spec_algebraic_indices()), self.spec_nbatch())
    }
}

impl<T: Copy> InitOp<T> {
    /// Builds the operator for `nstates` states in `nbatch` batches, starting
    /// from the state `y0`, with the algebraic states at `algebraic_indices`
    /// and the Jacobian pattern formed from the mass pattern and the
    /// right-hand side Jacobian pattern.  Fails with a fatal operator error
    /// when those two patterns cannot be united.
    pub fn new(
        nstates: usize,
        nbatch: usize,
        y0: &Vec<T>,
        algebraic_indices: Vec<usize>,
        mass_sparsity: Option<Sparsity>,
        rhs_sparsity: Option<Sparsity>,
    ) -> (r: Result<Self, OperatorError<MatrixError>>)
        requires
            valid_algebraic_indices(nstates as nat, algebraic_indices@),
            opt_wf(mass_sparsity),
            opt_wf(rhs_sparsity),
        ensures
            r is Ok <==> init_jacobian_pattern(
                algebraic_indices@.len() > 0,
                opt_view(mass_sparsity),
                opt_view(rhs_sparsity),
            ) is Some,
            r matches Ok(op) ==> {
                &&& op.wf()
                &&& op.spec_position_mask().len() == nstates * nbatch
                &&& op.spec_candidate() == y0@
                &&& op.spec_algebraic_indices() == algebraic_indices@
                &&& op.spec_nstates() == nstates
                &&& op.spec_nbatch() == nbatch
                &&& Some(opt_view(op.spec_jacobian_sparsity())) == init_jacobian_pattern(
                    algebraic_indices@.len() > 0,
                    opt_view(mass_sparsity),
                    opt_view(rhs_sparsity),
                )
            },
            r matches Err(e) ==> e.spec_kind() == OperatorErrorKind::Fatal
                && e.spec_source() is UnionIncompatibleShapes,
            r is Err <==> (algebraic_indices@.len() > 0 && mass_sparsity is Some && rhs_sparsity is Some && (
            mass_sparsity->0@.nrows != rhs_sparsity->0@.nrows || mass_sparsity->0@.ncols
                != rhs_sparsity->0@.ncols)),
            r matches Ok(op) ==> (algebraic_indices@.len() > 0 && (mass_sparsity is None || rhs_sparsity is None)
                ==> op.spec_jacobian_sparsity() is None),
            r matches Ok(op) ==> (algebraic_indices@.len() == 0 ==> opt_view(op.spec_jacobian_sparsity())
                == opt_view(mass_sparsity)),
    {
        proof {
            lemma_init_pattern_fails_only_on_shape_mismatch(
                algebraic_indices@.len() > 0,
                opt_view(mass_sparsity),
                opt_view(rhs_sparsity),
            );
        }
        let jacobian_sparsity = if algebraic_indices.len() == 0 {
            match &mass_sparsity {
                Some(m) => Some(m.duplicate()),
                None => None,
            }
        } else {
            match (&mass_sparsity, &rhs_sparsity) {
                (Some(m), Some(s)) => match s.union(m) {
                    Ok(u) => Some(u),
                    Err(e) => {
                        return Err(OperatorError::fatal(e));
                    },
                },
                _ => None,
            }
        };
        proof {
            if algebraic_indices@.len() > 0 && mass_sparsity is Some && rhs_sparsity is Some {
                assert(mass_sparsity->0@.entries.union(rhs_sparsity->0@.entries) =~= rhs_sparsity->0@.entries.union(
                    mass_sparsity->0@.entries,
                ));
            }
        }
        let is_algebraic = Self::mask_of(nstates, &algebraic_indices);
        let position_mask = Self::repeat(&is_algebraic, nbatch);
        proof {
            lemma_batched_len(is_algebraic@, nbatch as nat);
            assert(is_algebraic@.len() == nstates);
        }
        let mut candidate: Vec<T> = Vec::new();
        let mut p: usize = 0;
        while p < y0.len()
            invariant
                p <= y0@.len(),
                candidate@ == y0@.take(p as int),
            decreases y0@.len() - p,
        {
            candidate.push(y0[p]);
            assert(candidate@ =~= y0@.take(p + 1));
            p = p + 1;
        }
        assert(candidate@ =~= y0@);
        Ok(InitOp {
            y0: candidate,
            algebraic_indices,
            nstates,
            nbatch,
            is_algebraic,
            position_mask,
            jacobian_sparsity,
        })
    }

    /// The mask of algebraic states.
    fn mask_of(n: usize, alg: &Vec<usize>) -> (m: Vec<bool>)
        requires
            valid_algebraic_indices(n as nat, alg@),
        ensures
            m@ == algebraic_mask(n as nat, alg@),
    {
        let mut m: Vec<bool> = Vec::new();
        let mut i: usize = 0;
        while i < n
            invariant
                i <= n,
                m@.len() == i,
                forall|k: int| 0 <= k < i ==> !(#[trigger] m@[k]),
            decreases n - i,
        {
            m.push(false);
            i = i + 1;
        }
        let mut k: usize = 0;
        while k < alg.len()
            invariant
                k <= alg@.len(),
                valid_algebraic_indices(n as nat, alg@),
                m@.len() == n,
                forall|i: int| 0 <= i < n ==> #[trigger] m@[i] == alg@.take(k as int).contains(i as usize),
            decreases alg@.len() - k,
        {
            let a = alg[k];
            let ghost before = m@;
            m.set(a, true);
            assert forall|i: int| 0 <= i < n implies #[trigger] m@[i] == alg@.take(k + 1).contains(i as usize) by {
                let t1 = alg@.take(k as int);
                let t2 = alg@.take(k + 1);
                assert(t2 == t1.push(a));
                if i == a as int {
                    assert(t2[k as int] == a);
                } else {
                    assert(m@[i] == before[i]);
                    if t2.contains(i as usize) {
                        let w = choose|w: int| 0 <= w < t2.len() && t2[w] == i as usize;
                        assert(t1[w] == i as usize);
                    }
                    if t1.contains(i as usize) {
                        let w = choose|w: int| 0 <= w < t1.len() && t1[w] == i as usize;
                        assert(t2[w] == i as usize);
                    }
                }
            }
            k = k + 1;
        }
        assert(alg@.take(k as int) =~= alg@);
        assert(m@ =~= algebraic_mask(n as nat, alg@));
        m
    }

    /// `mask` repeated `nbatch` times.
    fn repeat(mask: &Vec<bool>, nbatch: usize) -> (r: Vec<bool>)
        ensures
            r@ == batched(mask@, nbatch as nat),
    {
        let mut r: Vec<bool> = Vec::new();
        let mut b: usize = 0;
        while b < nbatch
            invariant
                b <= nbatch,
                r@ == batched(mask@, b as nat),
            decreases nbatch - b,
        {
            let mut i: usize = 0;
            while i < mask.len()
                invariant
                    i <= mask@.len(),
                    r@ == batched(mask@, b as nat) + mask@.take(i as int),
                decreases mask@.len() - i,
            {
                r.push(mask[i]);
                assert(r@ =~= batched(mask@, b as nat) + mask@.take(i + 1));
                i = i + 1;
            }
            assert(mask@.take(i as int) =~= mask@);
            b = b + 1;
        }
        r
    }

    /// The number of states.
    pub fn nstates(&self) -> (n: usize)
        ensures
            n == self.spec_nstates(),
    {
        self.nstates
    }

    /// The number of outputs, which is the number of states.
    pub fn nout(&self) -> (n: usize)
        ensures
            n == self.spec_nstates(),
    {
        self.nstates
    }

    /// The number of batches.
    pub fn nbatch(&self) -> (n: usize)
        ensures
            n == self.spec_nbatch(),
    {
        self.nbatch
    }

    /// The algebraic state indices.
    pub fn algebraic_indices(&self) -> (a: &Vec<usize>)
        requires
            self.wf(),
        ensures
            a@ == self.spec_algebraic_indices(),
            valid_algebraic_indices(self.spec_nstates(), a@),
    {
        &self.algebraic_indices
    }

    /// Whether there is any algebraic state.
    pub fn has_algebraic(&self) -> (b: bool)
        ensures
            b == (self.spec_algebraic_indices().len() > 0),
    {
        self.algebraic_indices.len() > 0
    }

    /// The current candidate state.
    pub fn candidate(&self) -> (c: &Vec<T>)
        requires
            self.wf(),
        ensures
            c@ == self.spec_candidate(),
    {
        &self.y0
    }

    /// The Jacobian pattern, when known.
    pub fn jacobian_sparsity(&self) -> (s: Option<Sparsity>)
        requires
            self.wf(),
        ensures
            opt_view(s) == opt_view(self.spec_jacobian_sparsity()),
            opt_wf(s),
    {
        match &self.jacobian_sparsity {
            Some(s) => Some(s.duplicate()),
            None => None,
        }
    }

    /// For each state, whether it is algebraic: column `j` of the Jacobian
    /// comes from the right-hand side Jacobian exactly when entry `j` is set.
    pub fn algebraic_mask(&self) -> (m: Vec<bool>)
        requires
            self.wf(),
        ensures
            m@ == algebraic_mask(self.spec_nstates(), self.spec_algebraic_indices()),
    {
        let mut m: Vec<bool> = Vec::new();
        let mut i: usize = 0;
        while i < self.is_algebraic.len()
            invariant
                i <= self.is_algebraic@.len(),
                m@ == self.is_algebraic@.take(i as int),
            decreases self.is_algebraic@.len() - i,
        {
            m.push(self.is_algebraic[i]);
            assert(m@ =~= self.is_algebraic@.take(i + 1));
            i = i + 1;
        }
        assert(m@ =~= self.is_algebraic@);
        m
    }

    /// For each position of a batched vector, whether it holds an algebraic
    /// state.
    pub fn position_mask(&self) -> (m: &Vec<bool>)
        requires
            self.wf(),
        ensures
            m@ == self.spec_position_mask(),
    {
        &self.position_mask
    }

    /// Whether the negated mass block keeps entry (`row`, `col`) of the mass
    /// matrix: only the block of differential rows and columns is kept.
    pub fn keeps_mass_entry(&self, row: usize, col: usize) -> (b: bool)
        requires
            self.wf(),
            row < self.spec_nstates(),
            col < self.spec_nstates(),
        ensures
            b == (!algebraic_mask(self.spec_nstates(), self.spec_algebraic_indices())[row as int]
                && !algebraic_mask(self.spec_nstates(), self.spec_algebraic_indices())[col as int]),
    {
        !self.is_algebraic[row] && !self.is_algebraic[col]
    }

    /// Brings the latest iterate `x` into the candidate state: only its
    /// algebraic entries are taken, the differential ones being rates.
    pub fn refresh_candidate(&mut self, x: &Vec<T>)
        requires
            old(self).wf(),
            x@.len() == old(self).spec_candidate().len(),
            x@.len() == old(self).spec_position_mask().len(),
        ensures
            final(self).spec_candidate().len() == old(self).spec_candidate().len(),
            forall|p: int|
                0 <= p < x@.len() ==> #[trigger] final(self).spec_candidate()[p] == if old(
                    self,
                ).spec_position_mask()[p] {
                    x@[p]
                } else {
                    old(self).spec_candidate()[p]
                },
            final(self).spec_algebraic_indices() == old(self).spec_algebraic_indices(),
            final(self).spec_nstates() == old(self).spec_nstates(),
            final(self).spec_nbatch() == old(self).spec_nbatch(),
            final(self).spec_jacobian_sparsity() == old(self).spec_jacobian_sparsity(),
            final(self).wf(),
    {
        let ghost y_old = self.y0@;
        let mut y: Vec<T> = Vec::new();
        std::mem::swap(&mut y, &mut self.y0);
        let mut p: usize = 0;
        while p < x.len()
            invariant
                p <= x@.len(),
                y@.len() == x@.len(),
                y_old.len() == x@.len(),
                self.position_mask@.len() == x@.len(),
                forall|q: int|
                    0 <= q < x@.len() ==> #[trigger] y@[q] == if q < p && self.position_mask@[q] {
                        x@[q]
                    } else {
                        y_old[q]
                    },
            decreases x@.len() - p,
        {
            if self.position_mask[p] {
                y.set(p, x[p]);
            }
            p = p + 1;
        }
        self.y0 = y;
    }

    /// A direction that agrees with `v` at the algebraic positions and is
    /// `zero` elsewhere.
    pub fn algebraic_direction(&self, v: &Vec<T>, zero: T) -> (w: Vec<T>)
        requires
            self.wf(),
            v@.len() == self.spec_position_mask().len(),
        ensures
            w@.len() == v@.len(),
            forall|p: int|
                0 <= p < v@.len() ==> #[trigger] w@[p] == if self.spec_position_mask()[p] {
                    v@[p]
                } else {
                    zero
                },
    {
        let mut w: Vec<T> = Vec::new();
        let mut p: usize = 0;
        while p < v.len()
            invariant
                p <= v@.len(),
                w@.len() == p,
                self.position_mask@.len() == v@.len(),
                forall|q: int|
                    0 <= q < p ==> #[trigger] w@[q] == if self.position_mask@[q] {
                        v@[q]
                    } else {
                        zero
                    },
            decreases v@.len() - p,
        {
            if self.position_mask[p] {
                w.push(v[p]);
            } else {
                w.push(zero);
            }
            p = p + 1;
        }
        w
    }

    /// The block of `m` kept for the negated mass term: entries whose row
    /// and column are both differential, `zero` elsewhere.
    pub fn differential_block(&self, m: &Vec<Vec<T>>, zero: T) -> (b: Vec<Vec<T>>)
        requires
            self.wf(),
            m@.len() == self.spec_nstates(),
            forall|i: int| 0 <= i < m@.len() ==> (#[trigger] m@[i])@.len() == self.spec_nstates(),
        ensures
            b@.len() == self.spec_nstates(),
            forall|i: int| 0 <= i < b@.len() ==> (#[trigger] b@[i])@.len() == self.spec_nstates(),
            forall|i: int, j: int|
                0 <= i < self.spec_nstates() && 0 <= j < self.spec_nstates() ==> #[trigger] b@[i]@[j] == if !algebraic_mask(
                    self.spec_nstates(),
                    self.spec_algebraic_indices(),
                )[i] && !algebraic_mask(self.spec_nstates(), self.spec_algebraic_indices())[j] {
                    m@[i]@[j]
                } else {
                    zero
                },
    {
        let n = self.nstates;
        let mut b: Vec<Vec<T>> = Vec::new();
        let mut i: usize = 0;
        while i < n
            invariant
                i <= n,
                n == self.nstates,
                self.is_algebraic@ == algebraic_mask(n as nat, self.algebraic_indices@),
                m@.len() == n,
                forall|r: int| 0 <= r < m@.len() ==> (#[trigger] m@[r])@.len() == n,
                b@.len() == i,
                forall|r: int| 0 <= r < i ==> (#[trigger] b@[r])@.len() == n,
                forall|r: int, j: int|
                    0 <= r < i && 0 <= j < n ==> #[trigger] b@[r]@[j] == if !self.is_algebraic@[r]
                        && !self.is_algebraic@[j] {
                        m@[r]@[j]
                    } else {
                        zero
                    },
            decreases n - i,
        {
            let mut row: Vec<T> = Vec::new();
            let mut j: usize = 0;
            while j < n
                invariant
                    j <= n,
                    i < n,
                    n == self.nstates,
                    self.is_algebraic@.len() == n,
                    m@.len() == n,
                    m@[i as int]@.len() == n,
                    row@.len() == j,
                    forall|c: int|
                        0 <= c < j ==> #[trigger] row@[c] == if !self.is_algebraic@[i as int]
                            && !self.is_algebraic@[c] {
                            m@[i as int]@[c]
                        } else {
                            zero
                        },
                decreases n - j,
            {
                if !self.is_algebraic[i] && !self.is_algebraic[j] {
                    row.push(m[i][j]);
                } else {
                    row.push(zero);
                }
                j = j + 1;
            }
            let ghost before = b@;
            b.push(row);
            assert(b@ == before.push(row));
            i = i + 1;
        }
        b
    }

    /// The Jacobian of the initial-condition residual, column by column: an
    /// algebraic column from the right-hand side Jacobian, when it has been
    /// evaluated, every other column from the negated mass block.
    pub fn assemble_jacobian(&self, rhs_jacobian: Option<&Vec<Vec<T>>>, neg_mass: &Vec<Vec<T>>) -> (y: Vec<
        Vec<T>,
    >)
        requires
            self.wf(),
            neg_mass@.len() == self.spec_nstates(),
            forall|i: int| 0 <= i < neg_mass@.len() ==> (#[trigger] neg_mass@[i])@.len() == self.spec_nstates(),
            rhs_jacobian matches Some(r) ==> r@.len() == self.spec_nstates() && forall|i: int|
                0 <= i < r@.len() ==> (#[trigger] r@[i])@.len() == self.spec_nstates(),
        ensures
            y@.len() == self.spec_nstates(),
            forall|i: int| 0 <= i < y@.len() ==> (#[trigger] y@[i])@.len() == self.spec_nstates(),
            forall|i: int, j: int|
                0 <= i < self.spec_nstates() && 0 <= j < self.spec_nstates() ==> #[trigger] y@[i]@[j] == match rhs_jacobian {
                    Some(r) => if algebraic_mask(self.spec_nstates(), self.spec_algebraic_indices())[j] {
                        r@[i]@[j]
                    } else {
                        neg_mass@[i]@[j]
                    },
                    None => neg_mass@[i]@[j],
                },
    {
        let n = self.nstates;
        let mut y: Vec<Vec<T>> = Vec::new();
        let mut i: usize = 0;
        while i < n
            invariant
                i <= n,
                n == self.nstates,
                self.is_algebraic@ == algebraic_mask(n as nat, self.algebraic_indices@),
                neg_mass@.len() == n,
                forall|r: int| 0 <= r < neg_mass@.len() ==> (#[trigger] neg_mass@[r])@.len() == n,
                rhs_jacobian matches Some(rj) ==> rj@.len() == n && forall|r: int|
                    0 <= r < rj@.len() ==> (#[trigger] rj@[r])@.len() == n,
                y@.len() == i,
                forall|r: int| 0 <= r < i ==> (#[trigger] y@[r])@.len() == n,
                forall|r: int, j: int|
                    0 <= r < i && 0 <= j < n ==> #[trigger] y@[r]@[j] == match rhs_jacobian {
                        Some(rj) => if self.is_algebraic@[j] {
                            rj@[r]@[j]
                        } else {
                            neg_mass@[r]@[j]
                        },
                        None => neg_mass@[r]@[j],
                    },
            decreases n - i,
        {
            let mut row: Vec<T> = Vec::new();
            let mut j: usize = 0;
            while j < n
                invariant
                    j <= n,
                    i < n,
                    n == self.nstates,
                    self.is_algebraic@.len() == n,
                    neg_mass@.len() == n,
                    neg_mass@[i as int]@.len() == n,
                    rhs_jacobian matches Some(rj) ==> rj@.len() == n && rj@[i as int]@.len() == n,
                    row@.len() == j,
                    forall|c: int|
                        0 <= c < j ==> #[trigger] row@[c] == match rhs_jacobian {
                            Some(rj) => if self.is_algebraic@[c] {
                                rj@[i as int]@[c]
                            } else {
                                neg_mass@[i as int]@[c]
                            },
                            None => neg_mass@[i as int]@[c],
                        },
                decreases n - j,
            {
                match rhs_jacobian {
                    Some(rj) => {
                        if self.is_algebraic[j] {
                            row.push(rj[i][j]);
                        } else {
                            row.push(neg_mass[i][j]);
                        }
                    },
                    None => {
                        row.push(neg_mass[i][j]);
                    },
                }
                j = j + 1;
            }
            let ghost before = y@;
            y.push(row);
            assert(y@ == before.push(row));
            i = i + 1;
        }
        y
    }

    /// Splits a solution `soln = (du, v)` of the initial-condition problem:
    /// the algebraic states `v` go into `y`, the rates `du` into `dy`, and
    /// the other entries of `y` and `dy` stay.
    pub fn scatter_soln(&self, soln: &Vec<T>, y: &mut Vec<T>, dy: &mut Vec<T>)
        requires
            self.wf(),
            soln@.len() == self.spec_position_mask().len(),
            old(y)@.len() == soln@.len(),
            old(dy)@.len() == soln@.len(),
        ensures
            final(y)@.len() == soln@.len(),
            final(dy)@.len() == soln@.len(),
            forall|p: int|
                0 <= p < soln@.len() ==> #[trigger] final(y)@[p] == if self.spec_position_mask()[p] {
                    soln@[p]
                } else {
                    old(y)@[p]
                },
            forall|p: int|
                0 <= p < soln@.len() ==> #[trigger] final(dy)@[p] == if self.spec_position_mask()[p] {
                    old(dy)@[p]
                } else {
                    soln@[p]
                },
            gathered(self.spec_position_mask(), final(y)@, final(dy)@) == soln@,
    {
        let ghost y_old = y@;
        let ghost dy_old = dy@;
        let mut p: usize = 0;
        while p < soln.len()
            invariant
                p <= soln@.len(),
                y@.len() == soln@.len(),
                dy@.len() == soln@.len(),
                y_old.len() == soln@.len(),
                dy_old.len() == soln@.len(),
                self.position_mask@.len() == soln@.len(),
                forall|q: int|
                    0 <= q < soln@.len() ==> #[trigger] y@[q] == if q < p && self.position_mask@[q] {
                        soln@[q]
                    } else {
                        y_old[q]
                    },
                forall|q: int|
                    0 <= q < soln@.len() ==> #[trigger] dy@[q] == if q < p && !self.position_mask@[q] {
                        soln@[q]
                    } else {
                        dy_old[q]
                    },
            decreases soln@.len() - p,
        {
            if self.position_mask[p] {
                y.set(p, soln[p]);
            } else {
                dy.set(p, soln[p]);
            }
            p = p + 1;
        }
        assert(gathered(self.position_mask@, y@, dy@) =~= soln@);
    }
}

} // verus!
