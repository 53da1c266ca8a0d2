//! Sparsity patterns of matrices and the column colourings of Jacobians that
//! let several columns be evaluated by one product.
use vstd::prelude::*;
use crate::error::MatrixError;

verus! {

/// The entries of a pattern that lie within the given shape.
pub open spec fn in_bounds(nrows: nat, ncols: nat, entries: Seq<(usize, usize)>) -> bool {
    forall|k: int| 0 <= k < entries.len() ==> (#[trigger] entries[k]).0 < nrows && entries[k].1 < ncols
}

/// Whether columns `j` and `k` of a pattern have a nonzero in a common row.
pub open spec fn columns_conflict(entries: Seq<(usize, usize)>, j: nat, k: nat) -> bool {
    exists|p: int, q: int|
        #![trigger entries[p], entries[q]]
        0 <= p < entries.len() && 0 <= q < entries.len() && entries[p].1 == j && entries[q].1 == k
            && entries[p].0 == entries[q].0
}

/// A colouring of `ncols` columns with colours below `ncolors` in which no
/// two conflicting columns share a colour.
pub open spec fn valid_coloring(
    entries: Seq<(usize, usize)>,
    ncols: nat,
    colors: Seq<usize>,
    ncolors: nat,
) -> bool {
    &&& colors.len() == ncols
    &&& forall|j: int| 0 <= j < ncols ==> #[trigger] colors[j] < ncolors
    &&& forall|j: int, k: int|
        #![trigger colors[j], colors[k]]
        0 <= j < ncols && 0 <= k < ncols && j != k && columns_conflict(entries, j as nat, k as nat)
            ==> colors[j] != colors[k]
}

/// Some column before `j` that conflicts with it has colour `c`.
pub open spec fn color_taken_before(entries: Seq<(usize, usize)>, colors: Seq<usize>, j: int, c: int) -> bool {
    exists|k: int|
        #![trigger colors[k]]
        0 <= k < j && columns_conflict(entries, j as nat, k as nat) && colors[k] == c
}

/// The colouring that takes the columns in order and gives each the
/// smallest colour that no conflicting earlier column has, with `ncolors`
/// the number of colours it uses.
pub open spec fn greedy_coloring(
    entries: Seq<(usize, usize)>,
    ncols: nat,
    colors: Seq<usize>,
    ncolors: nat,
) -> bool {
    &&& valid_coloring(entries, ncols, colors, ncolors)
    &&& forall|j: int, c: int|
        0 <= j < ncols && 0 <= c < colors[j] ==> #[trigger] color_taken_before(entries, colors, j, c)
    &&& ncolors == 0 || exists|j: int| 0 <= j < ncols && #[trigger] colors[j] == ncolors - 1
}

/// The nonzero structure of an `nrows` by `ncols` matrix.
#[derive(Debug)]
pub struct Sparsity {
    nrows: usize,
    ncols: usize,
    indices: Vec<(usize, usize)>,
}

/// The mathematical pattern: the shape and the positions of the nonzeros.
pub struct SparsityView {
    pub nrows: nat,
    pub ncols: nat,
    pub entries: Set<(usize, usize)>,
}

impl View for Sparsity {
    type V = SparsityView;

    closed spec fn view(&self) -> SparsityView {
        SparsityView { nrows: self.nrows as nat, ncols: self.ncols as nat, entries: self.indices@.to_set() }
    }
}

impl Sparsity {
    /// The nonzero positions in the order in which they are stored.
    pub closed spec fn spec_indices(&self) -> Seq<(usize, usize)> {
        self.indices@
    }

    /// The stored positions lie within the shape and make up the pattern.
    pub closed spec fn wf(&self) -> bool {
        &&& in_bounds(self.nrows as nat, self.ncols as nat, self.indices@)
        &&& self@.entries == self.indices@.to_set()
        &&& self@.nrows == self.nrows
        &&& self@.ncols == self.ncols
    }

    /// Builds the pattern of an `nrows` by `ncols` matrix whose nonzeros are
    /// at `indices`; fails with `IndexOutOfBounds` when one of them lies
    /// outside the shape.
    pub fn try_from_indices(nrows: usize, ncols: usize, indices: Vec<(usize, usize)>) -> (r: Result<
        Sparsity,
        MatrixError,
    >)
        ensures
            r is Ok <==> in_bounds(nrows as nat, ncols as nat, indices@),
            r matches Ok(s) ==> {
                &&& s.wf()
                &&& s@.nrows == nrows
                &&& s@.ncols == ncols
                &&& s@.entries == indices@.to_set()
                &&& s.spec_indices() == indices@
            },
            r matches Err(e) ==> e is IndexOutOfBounds,
    {
        let mut k: usize = 0;
        while k < indices.len()
            invariant
                k <= indices.len(),
                in_bounds(nrows as nat, ncols as nat, indices@.take(k as int)),
            decreases indices.len() - k,
        {
            let (row, col) = indices[k];
            if row >= nrows || col >= ncols {
                assert(!in_bounds(nrows as nat, ncols as nat, indices@)) by {
                    assert(indices@[k as int] == (row, col));
                }
                return Err(MatrixError::IndexOutOfBounds);
            }
            assert forall|m: int| 0 <= m < k + 1 implies (#[trigger] indices@.take(k + 1)[m]).0 < nrows
                && indices@.take(k + 1)[m].1 < ncols by {
                if m < k {
                    assert(indices@.take(k + 1)[m] == indices@.take(k as int)[m]);
                }
            }
            k = k + 1;
        }
        assert(indices@.take(k as int) =~= indices@);
        Ok(Sparsity { nrows, ncols, indices })
    }

    /// The number of rows.
    pub fn nrows(&self) -> (n: usize)
        ensures
            n == self@.nrows,
    {
        self.nrows
    }

    /// The number of columns.
    pub fn ncols(&self) -> (n: usize)
        ensures
            n == self@.ncols,
    {
        self.ncols
    }

    /// The nonzero positions, as stored.
    pub fn indices(&self) -> (v: &Vec<(usize, usize)>)
        ensures
            v@ == self.spec_indices(),
            self.wf() ==> v@.to_set() == self@.entries,
    {
        &self.indices
    }

    /// A copy of this pattern.
    pub fn duplicate(&self) -> (s: Sparsity)
        ensures
            s@ == self@,
            s.spec_indices() == self.spec_indices(),
            self.wf() ==> s.wf(),
    {
        let mut indices: Vec<(usize, usize)> = Vec::new();
        let mut k: usize = 0;
        while k < self.indices.len()
            invariant
                k <= self.indices@.len(),
                indices@ == self.indices@.take(k as int),
            decreases self.indices@.len() - k,
        {
            indices.push(self.indices[k]);
            assert(indices@ =~= self.indices@.take(k + 1));
            k = k + 1;
        }
        assert(indices@ =~= self.indices@);
        Sparsity { nrows: self.nrows, ncols: self.ncols, indices }
    }

    /// The pattern whose nonzeros are those of either pattern; fails with
    /// `UnionIncompatibleShapes` when the shapes differ.
    pub fn union(&self, other: &Sparsity) -> (r: Result<Sparsity, MatrixError>)
        requires
            self.wf(),
            other.wf(),
        ensures
            r is Ok <==> (self@.nrows == other@.nrows && self@.ncols == other@.ncols),
            r matches Ok(s) ==> {
                &&& s.wf()
                &&& s@.nrows == self@.nrows
                &&& s@.ncols == self@.ncols
                &&& s@.entries == self@.entries.union(other@.entries)
            },
            r matches Err(e) ==> e is UnionIncompatibleShapes,
    {
        if self.nrows != other.nrows || self.ncols != other.ncols {
            return Err(MatrixError::UnionIncompatibleShapes);
        }
        let mut indices = self.duplicate().indices;
        let ghost a = self.indices@;
        let ghost b = other.indices@;
        let mut k: usize = 0;
        while k < other.indices.len()
            invariant
                k <= b.len(),
                b == other.indices@,
                indices@ == a + b.take(k as int),
            decreases b.len() - k,
        {
            indices.push(other.indices[k]);
            assert(indices@ =~= a + b.take(k + 1));
            k = k + 1;
        }
        assert(b.take(k as int) =~= b);
        let ghost all = a + b;
        assert(all.to_set() =~= a.to_set().union(b.to_set())) by {
            assert forall|x: (usize, usize)| all.contains(x) <==> (a.contains(x) || b.contains(x)) by {
                if all.contains(x) {
                    let i = choose|i: int| 0 <= i < all.len() && all[i] == x;
                    if i >= a.len() {
                        assert(b[i - a.len()] == x);
                    }
                }
                if a.contains(x) {
                    let i = choose|i: int| 0 <= i < a.len() && a[i] == x;
                    assert(all[i] == x);
                }
                if b.contains(x) {
                    let i = choose|i: int| 0 <= i < b.len() && b[i] == x;
                    assert(all[a.len() + i] == x);
                }
            }
        }
        assert forall|m: int| 0 <= m < all.len() implies (#[trigger] all[m]).0 < self.nrows && all[m].1
            < self.ncols by {
            if m >= a.len() {
                assert(all[m] == b[m - a.len()]);
            }
        }
        Ok(Sparsity { nrows: self.nrows, ncols: self.ncols, indices })
    }
}

/// A vector of `n` copies of `false`.
fn all_false(n: usize) -> (v: Vec<bool>)
    ensures
        v@.len() == n,
        forall|i: int| 0 <= i < n ==> !(#[trigger] v@[i]),
{
    let mut v: Vec<bool> = Vec::new();
    let mut i: usize = 0;
    while i < n
        invariant
            i <= n,
            v@.len() == i,
            forall|k: int| 0 <= k < i ==> !(#[trigger] v@[k]),
        decreases n - i,
    {
        v.push(false);
        i = i + 1;
    }
    v
}

/// A colouring of the columns of a Jacobian pattern in which columns that
/// have a nonzero in a common row get different colours, so that the columns
/// of one colour can be recovered from a single Jacobian-vector product.
#[derive(Debug)]
pub struct JacobianColoring {
    colors: Vec<usize>,
    ncolors: usize,
}

impl JacobianColoring {
    /// The colour of each column.
    pub closed spec fn spec_colors(&self) -> Seq<usize> {
        self.colors@
    }

    /// The number of colours used.
    pub closed spec fn spec_ncolors(&self) -> nat {
        self.ncolors as nat
    }

    /// Colours the columns of `sparsity` greedily, in column order, each
    /// with the smallest colour that no conflicting earlier column has.
    pub fn new(sparsity: &Sparsity) -> (c: JacobianColoring)
        requires
            sparsity.wf(),
        ensures
            greedy_coloring(sparsity.spec_indices(), sparsity@.ncols, c.spec_colors(), c.spec_ncolors()),
            c.spec_ncolors() <= sparsity@.ncols,
    {
        let entries = sparsity.indices();
        let ghost e = entries@;
        let nrows = sparsity.nrows();
        let ncols = sparsity.ncols();
        let mut colors: Vec<usize> = Vec::new();
        let mut ncolors: usize = 0;
        let mut j: usize = 0;
        while j < ncols
            invariant
                j <= ncols,
                e == entries@,
                e == sparsity.spec_indices(),
                in_bounds(nrows as nat, ncols as nat, e),
                ncols == sparsity@.ncols,
                colors@.len() == j,
                ncolors <= j,
                forall|i: int| 0 <= i < j ==> #[trigger] colors@[i] < ncolors,
                forall|i: int, k: int|
                    #![trigger colors@[i], colors@[k]]
                    0 <= i < j && 0 <= k < j && i != k && columns_conflict(e, i as nat, k as nat)
                        ==> colors@[i] != colors@[k],
                forall|i: int, c: int|
                    0 <= i < j && 0 <= c < colors@[i] ==> #[trigger] color_taken_before(e, colors@, i, c),
                ncolors == 0 || exists|i: int| 0 <= i < j && #[trigger] colors@[i] == ncolors - 1,
            decreases ncols - j,
        {
            // rows in which column j has a nonzero
            let mut row_mark = all_false(nrows);
            let mut p: usize = 0;
            while p < entries.len()
                invariant
                    p <= e.len(),
                    e == entries@,
                    in_bounds(nrows as nat, ncols as nat, e),
                    row_mark@.len() == nrows,
                    forall|p2: int| 0 <= p2 < p && (#[trigger] e[p2]).1 == j ==> row_mark@[e[p2].0 as int],
                    forall|r: int| 0 <= r < nrows && #[trigger] row_mark@[r] ==> exists|p2: int|
                        0 <= p2 < p && (#[trigger] e[p2]).1 == j && e[p2].0 == r,
                decreases e.len() - p,
            {
                let (r, col) = entries[p];
                if col == j {
                    row_mark.set(r, true);
                }
                assert(e[p as int] == (r, col));
                p = p + 1;
            }
            // colours of earlier columns that share one of those rows
            let mut forbidden = all_false(ncolors);
            let mut q: usize = 0;
            while q < entries.len()
                invariant
                    q <= e.len(),
                    e == entries@,
                    in_bounds(nrows as nat, ncols as nat, e),
                    row_mark@.len() == nrows,
                    forbidden@.len() == ncolors,
                    colors@.len() == j,
                    forall|i: int| 0 <= i < j ==> #[trigger] colors@[i] < ncolors,
                    forall|q2: int|
                        0 <= q2 < q && (#[trigger] e[q2]).1 < j && row_mark@[e[q2].0 as int]
                            ==> forbidden@[colors@[e[q2].1 as int] as int],
                    forall|c: int| 0 <= c < ncolors && #[trigger] forbidden@[c] ==> exists|q2: int|
                        0 <= q2 < q && (#[trigger] e[q2]).1 < j && row_mark@[e[q2].0 as int]
                            && colors@[e[q2].1 as int] == c,
                decreases e.len() - q,
            {
                let (r, k) = entries[q];
                if k < j && row_mark[r] {
                    let ck = colors[k];
                    forbidden.set(ck, true);
                }
                assert(e[q as int] == (r, k));
                q = q + 1;
            }
            // the smallest colour that is not forbidden
            let mut c: usize = 0;
            while c < ncolors && forbidden[c]
                invariant
                    c <= ncolors,
                    forbidden@.len() == ncolors,
                    forall|c2: int| 0 <= c2 < c ==> #[trigger] forbidden@[c2],
                decreases ncolors - c,
            {
                c = c + 1;
            }
            proof {
                assert forall|k: int| 0 <= k < j && columns_conflict(e, j as nat, k as nat) implies colors@[k]
                    != c by {
                    let (pw, qw) = choose|pw: int, qw: int|
                        #![trigger e[pw], e[qw]]
                        0 <= pw < e.len() && 0 <= qw < e.len() && e[pw].1 == j && e[qw].1 == k && e[pw].0
                            == e[qw].0;
                    assert(row_mark@[e[pw].0 as int]);
                    assert(forbidden@[colors@[e[qw].1 as int] as int]);
                }
                assert forall|k: int| 0 <= k < j && columns_conflict(e, k as nat, j as nat) implies colors@[k]
                    != c by {
                    let (pw, qw) = choose|pw: int, qw: int|
                        #![trigger e[pw], e[qw]]
                        0 <= pw < e.len() && 0 <= qw < e.len() && e[pw].1 == k && e[qw].1 == j && e[pw].0
                            == e[qw].0;
                    assert(row_mark@[e[qw].0 as int]);
                    assert(forbidden@[colors@[e[pw].1 as int] as int]);
                }
                assert forall|c2: int| 0 <= c2 < c && #[trigger] forbidden@[c2] implies color_taken_before(
                    e,
                    colors@,
                    j as int,
                    c2,
                ) by {
                    let q2 = choose|q2: int|
                        0 <= q2 < e.len() && (#[trigger] e[q2]).1 < j && row_mark@[e[q2].0 as int]
                            && colors@[e[q2].1 as int] == c2;
                    let r = e[q2].0 as int;
                    let p2 = choose|p2: int| 0 <= p2 < e.len() && (#[trigger] e[p2]).1 == j && e[p2].0 == r;
                    let k = e[q2].1 as int;
                    assert(columns_conflict(e, j as nat, k as nat)) by {
                        assert(e[p2].1 == j && e[q2].1 == k && e[p2].0 == e[q2].0);
                    }
                    assert(colors@[k] == c2);
                }
            }
            let ghost old_ncolors = ncolors;
            if c == ncolors {
                ncolors = ncolors + 1;
            }
            let ghost old_colors = colors@;
            colors.push(c);
            assert(colors@ == old_colors.push(c));
            assert(colors@[j as int] == c);
            assert forall|i: int, c2: int|
                0 <= i < j + 1 && 0 <= c2 < colors@[i] implies #[trigger] color_taken_before(e, colors@, i, c2) by {
                if i < j {
                    assert(colors@[i] == old_colors[i]);
                    assert(color_taken_before(e, old_colors, i, c2));
                    let k = choose|k: int|
                        #![trigger old_colors[k]]
                        0 <= k < i && columns_conflict(e, i as nat, k as nat) && old_colors[k] == c2;
                    assert(colors@[k] == old_colors[k]);
                } else {
                    assert(forbidden@[c2]);
                    assert(color_taken_before(e, old_colors, j as int, c2));
                    let k = choose|k: int|
                        #![trigger old_colors[k]]
                        0 <= k < j && columns_conflict(e, j as nat, k as nat) && old_colors[k] == c2;
                    assert(colors@[k] == old_colors[k]);
                }
            }
            assert(ncolors == 0 || exists|i: int| 0 <= i < j + 1 && #[trigger] colors@[i] == ncolors - 1) by {
                if c == old_ncolors {
                    assert(colors@[j as int] == ncolors - 1);
                } else if old_ncolors > 0 {
                    let i = choose|i: int| 0 <= i < j && #[trigger] old_colors[i] == old_ncolors - 1;
                    assert(colors@[i] == old_colors[i]);
                }
            }
            j = j + 1;
        }
        JacobianColoring { colors, ncolors }
    }

    /// A copy of this colouring.
    pub fn duplicate(&self) -> (c: JacobianColoring)
        ensures
            c.spec_colors() == self.spec_colors(),
            c.spec_ncolors() == self.spec_ncolors(),
    {
        let mut colors: Vec<usize> = Vec::new();
        let mut k: usize = 0;
        while k < self.colors.len()
            invariant
                k <= self.colors@.len(),
                colors@ == self.colors@.take(k as int),
            decreases self.colors@.len() - k,
        {
            colors.push(self.colors[k]);
            assert(colors@ =~= self.colors@.take(k + 1));
            k = k + 1;
        }
        assert(colors@ =~= self.colors@);
        JacobianColoring { colors, ncolors: self.ncolors }
    }

    /// The number of colours.
    pub fn ncolors(&self) -> (n: usize)
        ensures
            n == self.spec_ncolors(),
    {
        self.ncolors
    }

    /// The number of coloured columns.
    pub fn ncols(&self) -> (n: usize)
        ensures
            n == self.spec_colors().len(),
    {
        self.colors.len()
    }

    /// The colour of column `j`.
    pub fn color(&self, j: usize) -> (c: usize)
        requires
            j < self.spec_colors().len(),
        ensures
            c == self.spec_colors()[j as int],
    {
        self.colors[j]
    }
}

/// The greedy colouring of a pattern is unique: two colourings that both
/// satisfy [`greedy_coloring`] for the same pattern are the same.
pub proof fn lemma_greedy_coloring_unique(
    entries: Seq<(usize, usize)>,
    ncols: nat,
    colors1: Seq<usize>,
    ncolors1: nat,
    colors2: Seq<usize>,
    ncolors2: nat,
)
    requires
        greedy_coloring(entries, ncols, colors1, ncolors1),
        greedy_coloring(entries, ncols, colors2, ncolors2),
    ensures
        colors1 == colors2,
        ncolors1 == ncolors2,
{
    lemma_greedy_prefix_equal(entries, ncols, colors1, ncolors1, colors2, ncolors2, ncols);
    assert(colors1 =~= colors2);
    if ncolors1 != ncolors2 {
        if ncolors1 < ncolors2 {
            let i = choose|i: int| 0 <= i < ncols && #[trigger] colors2[i] == ncolors2 - 1;
            assert(colors1[i] < ncolors1);
        } else {
            let i = choose|i: int| 0 <= i < ncols && #[trigger] colors1[i] == ncolors1 - 1;
            assert(colors2[i] < ncolors2);
        }
    }
}

proof fn lemma_greedy_prefix_equal(
    entries: Seq<(usize, usize)>,
    ncols: nat,
    colors1: Seq<usize>,
    ncolors1: nat,
    colors2: Seq<usize>,
    ncolors2: nat,
    n: nat,
)
    requires
        greedy_coloring(entries, ncols, colors1, ncolors1),
        greedy_coloring(entries, ncols, colors2, ncolors2),
        n <= ncols,
    ensures
        forall|i: int| 0 <= i < n ==> colors1[i] == colors2[i],
    decreases n,
{
    if n > 0 {
        lemma_greedy_prefix_equal(entries, ncols, colors1, ncolors1, colors2, ncolors2, (n - 1) as nat);
        let j = n - 1;
        let c1 = colors1[j] as int;
        let c2 = colors2[j] as int;
        if c1 < c2 {
            assert(color_taken_before(entries, colors2, j, c1));
            let k = choose|k: int|
                #![trigger colors2[k]]
                0 <= k < j && columns_conflict(entries, j as nat, k as nat) && colors2[k] == c1;
            assert(colors1[k] == colors2[k]);
            assert(colors1[j] != colors1[k]);
        } else if c2 < c1 {
            assert(color_taken_before(entries, colors1, j, c2));
            let k = choose|k: int|
                #![trigger colors1[k]]
                0 <= k < j && columns_conflict(entries, j as nat, k as nat) && colors1[k] == c2;
            assert(colors1[k] == colors2[k]);
            assert(colors2[j] != colors2[k]);
        }
    }
}

} // verus!
