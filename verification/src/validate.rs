use vstd::prelude::*;

use crate::shape::{PatternShape, all_lengths_equal, lengths_all_equal};

verus! {

/// Largest number of patterns one upload may hold.
pub const MAX_PATTERNS: usize = 1000;

/// Largest pattern dimension one upload may hold.
pub const MAX_DIM: usize = 4096;

/// Why an upload of patterns is refused (each answered with status 422).
#[derive(Debug, Clone, Copy, PartialEq, Eq, Structural)]
pub enum UploadError {
    /// The upload holds no pattern at all.
    NoPatterns,
    /// The first pattern is an empty vector.
    EmptyPattern,
    /// More than `MAX_PATTERNS` patterns.
    TooManyPatterns,
    /// The first pattern is longer than `MAX_DIM`.
    DimensionTooLarge,
    /// The first pattern's length differs from the model's dimension.
    DimensionMismatch { pattern_dim: usize, model_dim: usize },
    /// Some pattern's length differs from the first pattern's.
    InconsistentDimensions,
    /// Some pattern value is NaN or infinite.
    NonFinite,
}

/// The answer to an upload of patterns with row lengths `lens` against a model of
/// dimension `model_dim`, where `all_finite` says whether every value is finite.
/// The rules are tried in this order; the first that fails decides the answer.
pub open spec fn upload_outcome(lens: Seq<usize>, model_dim: usize, all_finite: bool) -> Result<
    PatternShape,
    UploadError,
> {
    if lens.len() == 0 {
        Err(UploadError::NoPatterns)
    } else if lens[0] == 0 {
        Err(UploadError::EmptyPattern)
    } else if lens.len() > MAX_PATTERNS {
        Err(UploadError::TooManyPatterns)
    } else if lens[0] > MAX_DIM {
        Err(UploadError::DimensionTooLarge)
    } else if lens[0] != model_dim {
        Err(UploadError::DimensionMismatch { pattern_dim: lens[0], model_dim })
    } else if !all_lengths_equal(lens, lens[0]) {
        Err(UploadError::InconsistentDimensions)
    } else if !all_finite {
        Err(UploadError::NonFinite)
    } else {
        Ok(PatternShape { num_patterns: lens.len() as usize, dimension: lens[0] })
    }
}

/// Validates an upload: `row_lens[i]` is the length of pattern `i`, `model_dim` the
/// dimension of the loaded model and `all_finite` whether no value is NaN or infinite.
/// On success the shape of the pattern matrix is returned.
pub fn check_upload(row_lens: &[usize], model_dim: usize, all_finite: bool) -> (r: Result<
    PatternShape,
    UploadError,
>)
    ensures
        r == upload_outcome(row_lens@, model_dim, all_finite),
        (r is Ok) <==> (1 <= row_lens@.len() <= MAX_PATTERNS && 1 <= row_lens@[0] <= MAX_DIM
            && row_lens@[0] == model_dim && (forall|i: int|
            0 <= i < row_lens@.len() ==> #[trigger] row_lens@[i] == row_lens@[0]) && all_finite),
        r matches Ok(shape) ==> shape.num_patterns == row_lens@.len() && shape.dimension
            == model_dim,
        row_lens@.len() == 0 ==> r == Err::<PatternShape, UploadError>(UploadError::NoPatterns),
        row_lens@.len() > 0 && row_lens@[0] == 0 ==> r == Err::<PatternShape, UploadError>(
            UploadError::EmptyPattern,
        ),
        row_lens@.len() > MAX_PATTERNS && row_lens@[0] > 0 ==> r == Err::<PatternShape, UploadError>(
            UploadError::TooManyPatterns,
        ),
        1 <= row_lens@.len() <= MAX_PATTERNS && row_lens@[0] > MAX_DIM ==> r == Err::<
            PatternShape,
            UploadError,
        >(UploadError::DimensionTooLarge),
        1 <= row_lens@.len() <= MAX_PATTERNS && 1 <= row_lens@[0] <= MAX_DIM && row_lens@[0]
            != model_dim ==> r == Err::<PatternShape, UploadError>(
            UploadError::DimensionMismatch { pattern_dim: row_lens@[0], model_dim },
        ),
        1 <= row_lens@.len() <= MAX_PATTERNS && 1 <= row_lens@[0] <= MAX_DIM && row_lens@[0]
            == model_dim && (exists|i: int| 0 <= i < row_lens@.len() && #[trigger] row_lens@[i]
            != model_dim) ==> r == Err::<PatternShape, UploadError>(
            UploadError::InconsistentDimensions,
        ),
        1 <= row_lens@.len() <= MAX_PATTERNS && 1 <= row_lens@[0] <= MAX_DIM && row_lens@[0]
            == model_dim && (forall|i: int| 0 <= i < row_lens@.len() ==> #[trigger] row_lens@[i]
            == model_dim) && !all_finite ==> r == Err::<PatternShape, UploadError>(
            UploadError::NonFinite,
        ),
{
    if row_lens.len() == 0 {
        return Err(UploadError::NoPatterns);
    }
    let n = row_lens[0];
    if n == 0 {
        return Err(UploadError::EmptyPattern);
    }
    if row_lens.len() > MAX_PATTERNS {
        return Err(UploadError::TooManyPatterns);
    }
    if n > MAX_DIM {
        return Err(UploadError::DimensionTooLarge);
    }
    if n != model_dim {
        return Err(UploadError::DimensionMismatch { pattern_dim: n, model_dim });
    }
    if !lengths_all_equal(row_lens, n) {
        return Err(UploadError::InconsistentDimensions);
    }
    if !all_finite {
        return Err(UploadError::NonFinite);
    }
    Ok(PatternShape { num_patterns: row_lens.len(), dimension: n })
}

/// An accepted upload holds between one and `MAX_PATTERNS` patterns, all of the
/// model's dimension, which lies between one and `MAX_DIM`.
pub proof fn accepted_upload_is_within_limits(lens: Seq<usize>, model_dim: usize, all_finite: bool)
    requires
        upload_outcome(lens, model_dim, all_finite) is Ok,
    ensures
        ({
            let shape = upload_outcome(lens, model_dim, all_finite)->Ok_0;
            &&& 1 <= shape.num_patterns <= MAX_PATTERNS
            &&& shape.num_patterns == lens.len()
            &&& 1 <= shape.dimension <= MAX_DIM
            &&& shape.dimension == model_dim
            &&& all_lengths_equal(lens, model_dim)
            &&& all_finite
        }),
{
}

/// Why a retrieval is refused.
#[derive(Debug, Clone, Copy, PartialEq, Eq, Structural)]
pub enum RetrieveError {
    /// The query holds a NaN or infinite value (status 422).
    NonFiniteQuery,
    /// The temperature is below zero (status 422).
    NegativeTemperature,
    /// No memory set is stored under the identifier (status 404).
    SetNotFound,
    /// The query's length differs from the stored patterns' dimension (status 422).
    DimensionMismatch { query_dim: usize, pattern_dim: usize },
}

/// The answer to a retrieval from the sets `sets` under identifier `id` with a query
/// of `query_len` values, where `query_finite` says whether all of them are finite
/// and `temperature_negative` whether the temperature is below zero.  The rules are
/// tried in this order; on success the stored payload is handed back.
pub open spec fn retrieve_outcome<T>(
    sets: Map<Seq<char>, (PatternShape, T)>,
    id: Seq<char>,
    query_len: usize,
    query_finite: bool,
    temperature_negative: bool,
) -> Result<T, RetrieveError> {
    if !query_finite {
        Err(RetrieveError::NonFiniteQuery)
    } else if temperature_negative {
        Err(RetrieveError::NegativeTemperature)
    } else if !sets.contains_key(id) {
        Err(RetrieveError::SetNotFound)
    } else if query_len != sets[id].0.dimension {
        Err(RetrieveError::DimensionMismatch { query_dim: query_len, pattern_dim: sets[id].0.dimension })
    } else {
        Ok(sets[id].1)
    }
}

/// An upload is accepted exactly when it holds between one and `MAX_PATTERNS`
/// patterns, all of the same length, which is the model's dimension and lies between
/// one and `MAX_DIM`, and all values are finite; the accepted shape is then the number
/// of patterns by that length.  A refused upload is answered by the first broken rule,
/// in this order: no patterns, an empty first pattern, too many patterns, a first
/// pattern longer than `MAX_DIM`, a first pattern not of the model's dimension, a
/// pattern of another length, a value that is NaN or infinite.
pub proof fn upload_acceptance(lens: Seq<usize>, model_dim: usize, all_finite: bool)
    requires
        lens.len() <= usize::MAX,
    ensures
        (upload_outcome(lens, model_dim, all_finite) is Ok) <==> (1 <= lens.len() <= MAX_PATTERNS
            && 1 <= lens[0] <= MAX_DIM && lens[0] == model_dim && (forall|i: int|
            0 <= i < lens.len() ==> #[trigger] lens[i] == lens[0]) && all_finite),
        (1 <= lens.len() <= MAX_PATTERNS && 1 <= lens[0] <= MAX_DIM && lens[0] == model_dim
            && (forall|i: int| 0 <= i < lens.len() ==> #[trigger] lens[i] == lens[0]) && all_finite)
            ==> upload_outcome(lens, model_dim, all_finite) == Ok::<PatternShape, UploadError>(
            PatternShape { num_patterns: lens.len() as usize, dimension: lens[0] },
        ),
        lens.len() == 0 ==> upload_outcome(lens, model_dim, all_finite) == Err::<PatternShape, UploadError>(UploadError::NoPatterns),
        lens.len() > 0 && lens[0] == 0 ==> upload_outcome(lens, model_dim, all_finite) == Err::<PatternShape, UploadError>(
            UploadError::EmptyPattern,
        ),
        lens.len() > MAX_PATTERNS && lens[0] > 0 ==> upload_outcome(lens, model_dim, all_finite) == Err::<PatternShape, UploadError>(
            UploadError::TooManyPatterns,
        ),
        1 <= lens.len() <= MAX_PATTERNS && lens[0] > MAX_DIM ==> upload_outcome(lens, model_dim, all_finite) == Err::<
            PatternShape,
            UploadError,
        >(UploadError::DimensionTooLarge),
        1 <= lens.len() <= MAX_PATTERNS && 1 <= lens[0] <= MAX_DIM && lens[0]
            != model_dim ==> upload_outcome(lens, model_dim, all_finite) == Err::<PatternShape, UploadError>(
            UploadError::DimensionMismatch { pattern_dim: lens[0], model_dim },
        ),
        1 <= lens.len() <= MAX_PATTERNS && 1 <= lens[0] <= MAX_DIM && lens[0]
            == model_dim && (exists|i: int| 0 <= i < lens.len() && #[trigger] lens[i]
            != model_dim) ==> upload_outcome(lens, model_dim, all_finite) == Err::<PatternShape, UploadError>(
            UploadError::InconsistentDimensions,
        ),
        1 <= lens.len() <= MAX_PATTERNS && 1 <= lens[0] <= MAX_DIM && lens[0]
            == model_dim && (forall|i: int| 0 <= i < lens.len() ==> #[trigger] lens[i]
            == model_dim) && !all_finite ==> upload_outcome(lens, model_dim, all_finite) == Err::<PatternShape, UploadError>(
            UploadError::NonFinite,
        ),
{
}

} // verus!
