use vstd::prelude::*;

use crate::shape::{PatternShape, all_lengths_equal, lengths_all_equal};

verus! {

/// Why the engine refuses its patterns or a query (a `ValueError` to its callers).
#[derive(Debug, Clone, Copy, PartialEq, Eq, Structural)]
pub enum EngineError {
    /// Not all stored patterns have the same length.
    InconsistentDimensions,
    /// The query's length differs from the stored patterns' dimension.
    QueryDimensionMismatch { query_dim: usize, pattern_dim: usize },
}

/// The shape an engine takes from patterns with row lengths `lens`: no patterns give
/// the empty 0 × 0 shape, rectangular patterns their own shape, anything else an error.
pub open spec fn engine_shape_outcome(lens: Seq<usize>) -> Result<PatternShape, EngineError> {
    if lens.len() == 0 {
        Ok(PatternShape { num_patterns: 0, dimension: 0 })
    } else if all_lengths_equal(lens, lens[0]) {
        Ok(PatternShape { num_patterns: lens.len() as usize, dimension: lens[0] })
    } else {
        Err(EngineError::InconsistentDimensions)
    }
}

/// Checks the patterns an engine is built from (`row_lens[i]` is the length of
/// pattern `i`) and gives the shape of the pattern matrix.
pub fn engine_shape(row_lens: &[usize]) -> (r: Result<PatternShape, EngineError>)
    ensures
        r == engine_shape_outcome(row_lens@),
        row_lens@.len() == 0 ==> r == Ok::<PatternShape, EngineError>(
            PatternShape { num_patterns: 0, dimension: 0 },
        ),
        row_lens@.len() > 0 && (forall|i: int| 0 <= i < row_lens@.len() ==> #[trigger] row_lens@[i] == row_lens@[0])
            ==> r == Ok::<PatternShape, EngineError>(
            PatternShape { num_patterns: row_lens@.len() as usize, dimension: row_lens@[0] },
        ),
        (exists|i: int| 0 <= i < row_lens@.len() && #[trigger] row_lens@[i] != row_lens@[0]) ==> r == Err::<
            PatternShape,
            EngineError,
        >(EngineError::InconsistentDimensions),
        r matches Ok(s) ==> s.num_patterns == row_lens@.len() && forall|i: int|
            0 <= i < row_lens@.len() ==> #[trigger] row_lens@[i] == s.dimension,
{
    if row_lens.len() == 0 {
        return Ok(PatternShape { num_patterns: 0, dimension: 0 });
    }
    let n = row_lens[0];
    if lengths_all_equal(row_lens, n) {
        Ok(PatternShape { num_patterns: row_lens.len(), dimension: n })
    } else {
        Err(EngineError::InconsistentDimensions)
    }
}

/// How a precision prediction is formed.
#[derive(Debug, Clone, Copy, PartialEq, Eq, Structural)]
pub enum PredictPlan {
    /// No patterns are stored: the answer is uniform precision 1.0, one per query value.
    Uniform,
    /// Blend the per-pattern precisions by the query's similarity to each pattern.
    Blend,
}

/// The plan of a prediction for a query of `query_len` values by an engine whose
/// patterns have shape `shape`.
pub open spec fn predict_outcome(shape: PatternShape, query_len: usize) -> Result<
    PredictPlan,
    EngineError,
> {
    if shape.num_patterns == 0 {
        Ok(PredictPlan::Uniform)
    } else if query_len != shape.dimension {
        Err(EngineError::QueryDimensionMismatch { query_dim: query_len, pattern_dim: shape.dimension })
    } else {
        Ok(PredictPlan::Blend)
    }
}

/// Decides how a prediction for a query of `query_len` values is formed, or refuses it.
pub fn predict_plan(shape: PatternShape, query_len: usize) -> (r: Result<PredictPlan, EngineError>)
    ensures
        r == predict_outcome(shape, query_len),
        (r == Ok::<PredictPlan, EngineError>(PredictPlan::Uniform)) <==> shape.num_patterns == 0,
        shape.num_patterns > 0 && query_len == shape.dimension ==> r == Ok::<PredictPlan, EngineError>(
            PredictPlan::Blend,
        ),
        shape.num_patterns > 0 && query_len != shape.dimension ==> r == Err::<PredictPlan, EngineError>(
            EngineError::QueryDimensionMismatch { query_dim: query_len, pattern_dim: shape.dimension },
        ),
{
    if shape.num_patterns == 0 {
        Ok(PredictPlan::Uniform)
    } else if query_len != shape.dimension {
        Err(EngineError::QueryDimensionMismatch { query_dim: query_len, pattern_dim: shape.dimension })
    } else {
        Ok(PredictPlan::Blend)
    }
}

/// An engine built from patterns accepts exactly the queries whose length is the
/// patterns' common length (or any query when it holds no patterns).
pub proof fn engine_accepts_queries_of_its_dimension(lens: Seq<usize>, query_len: usize)
    requires
        lens.len() <= usize::MAX,
        engine_shape_outcome(lens) is Ok,
    ensures
        (predict_outcome(engine_shape_outcome(lens)->Ok_0, query_len) is Ok) <==> (lens.len() == 0
            || query_len == lens[0]),
{
}

/// An engine takes the empty shape from no patterns, the patterns' own shape exactly
/// when every pattern has the first one's length, and refuses patterns as soon as one
/// length differs from the first.
pub proof fn engine_shape_law(lens: Seq<usize>)
    requires
        lens.len() <= usize::MAX,
    ensures
        lens.len() == 0 ==> engine_shape_outcome(lens) == Ok::<PatternShape, EngineError>(
            PatternShape { num_patterns: 0, dimension: 0 },
        ),
        lens.len() > 0 && (forall|i: int| 0 <= i < lens.len() ==> #[trigger] lens[i] == lens[0])
            ==> engine_shape_outcome(lens) == Ok::<PatternShape, EngineError>(
            PatternShape { num_patterns: lens.len() as usize, dimension: lens[0] },
        ),
        (exists|i: int| 0 <= i < lens.len() && #[trigger] lens[i] != lens[0]) ==> engine_shape_outcome(lens)
            == Err::<PatternShape, EngineError>(EngineError::InconsistentDimensions),
{
}

/// A prediction is uniform exactly when the engine holds no patterns; otherwise a
/// query of the patterns' dimension is blended and any other is refused with both
/// lengths.
pub proof fn predict_plan_law(shape: PatternShape, query_len: usize)
    ensures
        (predict_outcome(shape, query_len) == Ok::<PredictPlan, EngineError>(PredictPlan::Uniform))
            <==> shape.num_patterns == 0,
        shape.num_patterns > 0 && query_len == shape.dimension ==> predict_outcome(shape, query_len)
            == Ok::<PredictPlan, EngineError>(PredictPlan::Blend),
        shape.num_patterns > 0 && query_len != shape.dimension ==> predict_outcome(shape, query_len)
            == Err::<PredictPlan, EngineError>(
            EngineError::QueryDimensionMismatch { query_dim: query_len, pattern_dim: shape.dimension },
        ),
{
}

} // verus!
