use vstd::prelude::*;

verus! {

/// Why the model's projection matrix `R` is refused.
#[derive(Debug, Clone, Copy, PartialEq, Eq, Structural)]
pub enum ProjectionError {
    /// The number of rows differs from the length of the first row.
    NotSquare { rows: usize, cols: usize },
    /// The rows together do not hold `rows × rows` values.
    ShapeMismatch,
}

/// The sum of the lengths in `lens`.
pub open spec fn total_length(lens: Seq<usize>) -> int
    decreases lens.len(),
{
    if lens.len() == 0 {
        0
    } else {
        total_length(lens.drop_last()) + lens.last()
    }
}

/// The dimension a projection matrix with row lengths `lens` gives the model.
/// Squareness is judged by the first row; the values, read row after row, must then
/// fill an `n × n` matrix.
pub open spec fn projection_outcome(lens: Seq<usize>) -> Result<usize, ProjectionError> {
    let n = lens.len();
    let m: usize = if n == 0 {
        0
    } else {
        lens[0]
    };
    if n != m {
        Err(ProjectionError::NotSquare { rows: n as usize, cols: m })
    } else if total_length(lens) != n * n {
        Err(ProjectionError::ShapeMismatch)
    } else {
        Ok(n as usize)
    }
}

proof fn lemma_total_length_grows(lens: Seq<usize>, i: int)
    requires
        0 <= i < lens.len(),
    ensures
        total_length(lens.take(i + 1)) == total_length(lens.take(i)) + lens[i],
{
    assert(lens.take(i + 1).drop_last() =~= lens.take(i));
}

proof fn lemma_total_length_monotone(lens: Seq<usize>, i: int)
    requires
        0 <= i <= lens.len(),
    ensures
        total_length(lens.take(i)) <= total_length(lens),
    decreases lens.len() - i,
{
    if i < lens.len() {
        lemma_total_length_grows(lens, i);
        lemma_total_length_monotone(lens, i + 1);
    } else {
        assert(lens.take(i) =~= lens);
    }
}

/// Checks the row lengths `row_lens` of the projection matrix read from the model
/// configuration and gives the model's dimension.
pub fn projection_dim(row_lens: &[usize]) -> (r: Result<usize, ProjectionError>)
    ensures
        r == projection_outcome(row_lens@),
        row_lens@.len() > 0 && row_lens@[0] != row_lens@.len() ==> r == Err::<usize, ProjectionError>(
            ProjectionError::NotSquare { rows: row_lens@.len() as usize, cols: row_lens@[0] },
        ),
        (r is Ok) <==> ((row_lens@.len() == 0 || row_lens@[0] == row_lens@.len()) && total_length(
            row_lens@,
        ) == row_lens@.len() * row_lens@.len()),
        r matches Ok(n) ==> n == row_lens@.len(),
{
    let n = row_lens.len();
    let m: usize = if n == 0 {
        0
    } else {
        row_lens[0]
    };
    if n != m {
        return Err(ProjectionError::NotSquare { rows: n, cols: m });
    }
    let wide: u128 = n as u128;
    assert(wide * wide <= u128::MAX) by (nonlinear_arith)
        requires
            wide <= 0xffff_ffff_ffff_ffffu128,
    ;
    let nn: u128 = wide * wide;
    let mut total: u128 = 0;
    let mut i: usize = 0;
    while i < n
        invariant
            n == row_lens@.len(),
            n == 0 || row_lens@[0] == n,
            0 <= i <= n,
            nn == n * n,
            total == total_length(row_lens@.take(i as int)),
            total <= nn,
        decreases n - i,
    {
        proof {
            lemma_total_length_grows(row_lens@, i as int);
        }
        assert(nn + row_lens[i as int] < u128::MAX) by (nonlinear_arith)
            requires
                nn == n * n,
                n <= usize::MAX,
                row_lens[i as int] <= usize::MAX,
                n <= 0xffff_ffff_ffff_ffff,
                row_lens[i as int] <= 0xffff_ffff_ffff_ffff,
        ;
        total = total + row_lens[i] as u128;
        assert(total == total_length(row_lens@.take(i + 1)));
        if total > nn {
            proof {
                lemma_total_length_monotone(row_lens@, i + 1);
                assert(total_length(row_lens@) > n * n);
            }
            return Err(ProjectionError::ShapeMismatch);
        }
        i = i + 1;
    }
    assert(row_lens@.take(n as int) =~= row_lens@);
    if total != nn {
        return Err(ProjectionError::ShapeMismatch);
    }
    Ok(n)
}

/// A projection matrix is accepted exactly when its row count equals its first row's
/// length (or it has no rows) and its rows hold `n × n` values in all; the model's
/// dimension is then the row count.  A row count unlike the first row's length is
/// refused as not square, naming both.
pub proof fn projection_law(lens: Seq<usize>)
    requires
        lens.len() <= usize::MAX,
    ensures
        (projection_outcome(lens) is Ok) <==> ((lens.len() == 0 || lens[0] == lens.len())
            && total_length(lens) == lens.len() * lens.len()),
        projection_outcome(lens) matches Ok(n) ==> n == lens.len(),
        lens.len() > 0 && lens[0] != lens.len() ==> projection_outcome(lens) == Err::<
            usize,
            ProjectionError,
        >(ProjectionError::NotSquare { rows: lens.len() as usize, cols: lens[0] }),
{
}

} // verus!
