use vstd::prelude::*;

verus! {

/// The shape of a stored pattern matrix: `num_patterns` rows of `dimension` values.
#[derive(Debug, Clone, Copy, PartialEq, Eq, Structural)]
pub struct PatternShape {
    pub num_patterns: usize,
    pub dimension: usize,
}

/// Every length in `lens` equals `n`.
pub open spec fn all_lengths_equal(lens: Seq<usize>, n: usize) -> bool {
    forall|i: int| 0 <= i < lens.len() ==> lens[i] == n
}

/// Tests whether every row length equals `n`; a verified helper shared by the checks.
pub fn lengths_all_equal(lens: &[usize], n: usize) -> (r: bool)
    ensures
        r == all_lengths_equal(lens@, n),
        r <==> (forall|i: int| 0 <= i < lens@.len() ==> #[trigger] lens@[i] == n),
{
    let mut i: usize = 0;
    while i < lens.len()
        invariant
            0 <= i <= lens.len(),
            forall|j: int| 0 <= j < i ==> lens@[j] == n,
        decreases lens.len() - i,
    {
        if lens[i] != n {
            return false;
        }
        i = i + 1;
    }
    true
}

} // verus!
