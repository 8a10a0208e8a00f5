//! Matrix helpers.

use vstd::prelude::*;

verus! {

/// The rows of a matrix as sequences.
pub open spec fn rows_of<T>(m: Seq<Vec<T>>) -> Seq<Seq<T>> {
    m.map_values(|row: Vec<T>| row@)
}

/// The transpose of a matrix given as rows: as many rows as the first row has
/// entries, each holding that column of every row.
pub open spec fn transpose_of<T>(m: Seq<Seq<T>>) -> Seq<Seq<T>> {
    if m.len() == 0 {
        Seq::empty()
    } else {
        Seq::new(m[0].len(), |i: int| Seq::new(m.len(), |j: int| m[j][i]))
    }
}

/// Transposing a non-empty matrix whose rows all have the same non-zero length
/// twice gives the matrix back.
pub proof fn lemma_transpose_twice<T>(m: Seq<Seq<T>>)
    requires
        m.len() > 0,
        m[0].len() > 0,
        forall|j: int| 0 <= j < m.len() ==> (#[trigger] m[j]).len() == m[0].len(),
    ensures
        transpose_of(transpose_of(m)) == m,
{
    let t = transpose_of(m);
    assert(t.len() == m[0].len());
    assert(t[0].len() == m.len());
    let tt = transpose_of(t);
    assert(tt.len() == m.len());
    assert forall|j: int| 0 <= j < m.len() implies #[trigger] tt[j] == m[j] by {
        assert(tt[j].len() == m[j].len());
        assert forall|i: int| 0 <= i < m[j].len() implies tt[j][i] == m[j][i] by {
            assert(t[i][j] == m[j][i]);
        }
        assert(tt[j] =~= m[j]);
    }
    assert(tt =~= m);
}

/// Transposes a matrix given as rows; the first row's length is the number of
/// columns, and every row must be at least that long.
pub fn transpose<T: Clone>(matrix: &[Vec<T>]) -> (r: Vec<Vec<T>>)
    requires
        matrix@.len() > 0,
        forall|j: int| 0 <= j < matrix@.len() ==> (#[trigger] matrix@[j])@.len() >= matrix@[0]@.len(),
    ensures
        r@.len() == matrix@[0]@.len(),
        forall|i: int| 0 <= i < r@.len() ==> (#[trigger] r@[i])@.len() == matrix@.len(),
        forall|i: int, j: int| 0 <= i < r@.len() && 0 <= j < matrix@.len()
            ==> cloned::<T>(matrix@[j]@[i], #[trigger] r@[i]@[j]),
        // where cloning gives an equal value, the result is exactly the transpose
        (forall|a: T, b: T| #[trigger] cloned::<T>(a, b) ==> a == b)
            ==> rows_of(r@) == transpose_of(rows_of(matrix@)),
{
    let cols = matrix[0].len();
    let mut transposed: Vec<Vec<T>> = Vec::new();
    let mut i: usize = 0;
    while i < cols
        invariant
            cols == matrix@[0]@.len(),
            i <= cols,
            matrix@.len() > 0,
            forall|j: int| 0 <= j < matrix@.len() ==> (#[trigger] matrix@[j])@.len() >= matrix@[0]@.len(),
            transposed@.len() == i,
            forall|a: int| 0 <= a < i ==> (#[trigger] transposed@[a])@.len() == matrix@.len(),
            forall|a: int, j: int| 0 <= a < i && 0 <= j < matrix@.len()
                ==> cloned::<T>(matrix@[j]@[a], #[trigger] transposed@[a]@[j]),
        decreases cols - i,
    {
        let mut row: Vec<T> = Vec::new();
        let mut j: usize = 0;
        while j < matrix.len()
            invariant
                i < cols,
                cols == matrix@[0]@.len(),
                forall|q: int| 0 <= q < matrix@.len() ==> (#[trigger] matrix@[q])@.len() >= matrix@[0]@.len(),
                j <= matrix@.len(),
                row@.len() == j,
                forall|q: int| 0 <= q < j ==> cloned::<T>(matrix@[q]@[i as int], #[trigger] row@[q]),
            decreases matrix.len() - j,
        {
            assert(matrix@[j as int]@.len() >= cols);
            let v = matrix[j][i].clone();
            row.push(v);
            j = j + 1;
        }
        transposed.push(row);
        i = i + 1;
    }
    proof {
        if forall|a: T, b: T| #[trigger] cloned::<T>(a, b) ==> a == b {
            let want = transpose_of(rows_of(matrix@));
            let got = rows_of(transposed@);
            assert forall|a: int| 0 <= a < got.len() implies #[trigger] got[a] == want[a] by {
                assert forall|q: int| 0 <= q < matrix@.len() implies got[a][q] == want[a][q] by {
                    assert(cloned::<T>(matrix@[q]@[a], transposed@[a]@[q]));
                }
                assert(got[a] =~= want[a]);
            }
            assert(got =~= want);
        }
    }
    transposed
}

} // verus!
