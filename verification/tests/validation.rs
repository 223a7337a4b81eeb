use my_rust_agent::engine::{engine_shape, predict_plan, EngineError, PredictPlan};
use my_rust_agent::projection::{projection_dim, ProjectionError};
use my_rust_agent::shape::{lengths_all_equal, PatternShape};
use my_rust_agent::validate::{check_upload, UploadError, MAX_DIM, MAX_PATTERNS};

fn shape(num_patterns: usize, dimension: usize) -> PatternShape {
    PatternShape { num_patterns, dimension }
}

#[test]
fn upload_accepts_consistent_finite_patterns() {
    assert_eq!(check_upload(&[64, 64, 64], 64, true), Ok(shape(3, 64)));
}

#[test]
fn upload_without_patterns_is_refused() {
    assert_eq!(check_upload(&[], 64, true), Err(UploadError::NoPatterns));
}

#[test]
fn upload_with_empty_first_pattern_is_refused() {
    assert_eq!(check_upload(&[0, 3], 3, true), Err(UploadError::EmptyPattern));
}

#[test]
fn upload_with_too_many_patterns_is_refused() {
    let lens = vec![4usize; MAX_PATTERNS + 1];
    assert_eq!(check_upload(&lens, 4, true), Err(UploadError::TooManyPatterns));
    let lens = vec![4usize; MAX_PATTERNS];
    assert_eq!(check_upload(&lens, 4, true), Ok(shape(MAX_PATTERNS, 4)));
}

#[test]
fn upload_with_too_large_dimension_is_refused() {
    assert_eq!(check_upload(&[MAX_DIM + 1], MAX_DIM + 1, true), Err(UploadError::DimensionTooLarge));
    assert_eq!(check_upload(&[MAX_DIM], MAX_DIM, true), Ok(shape(1, MAX_DIM)));
}

#[test]
fn upload_of_other_dimension_than_model_is_refused() {
    assert_eq!(
        check_upload(&[3, 3], 64, true),
        Err(UploadError::DimensionMismatch { pattern_dim: 3, model_dim: 64 })
    );
}

#[test]
fn upload_with_ragged_patterns_is_refused() {
    assert_eq!(check_upload(&[3, 3, 2], 3, true), Err(UploadError::InconsistentDimensions));
}

#[test]
fn upload_with_non_finite_values_is_refused() {
    assert_eq!(check_upload(&[3, 3], 3, false), Err(UploadError::NonFinite));
}

#[test]
fn upload_rules_are_tried_in_order() {
    // an empty first pattern is reported before the dimension mismatch and the NaN
    assert_eq!(check_upload(&[0, 5], 7, false), Err(UploadError::EmptyPattern));
    // a ragged upload with NaN values is reported as ragged
    assert_eq!(check_upload(&[2, 3], 2, false), Err(UploadError::InconsistentDimensions));
}

#[test]
fn lengths_all_equal_checks_every_row() {
    assert!(lengths_all_equal(&[2, 2, 2], 2));
    assert!(!lengths_all_equal(&[2, 2, 1], 2));
    assert!(lengths_all_equal(&[], 9));
}

#[test]
fn engine_shape_of_no_patterns_is_empty() {
    assert_eq!(engine_shape(&[]), Ok(shape(0, 0)));
}

#[test]
fn engine_shape_of_rectangular_patterns() {
    assert_eq!(engine_shape(&[5, 5]), Ok(shape(2, 5)));
    assert_eq!(engine_shape(&[0]), Ok(shape(1, 0)));
}

#[test]
fn engine_refuses_ragged_patterns() {
    assert_eq!(engine_shape(&[5, 4]), Err(EngineError::InconsistentDimensions));
}

#[test]
fn predict_plan_for_empty_engine_is_uniform() {
    assert_eq!(predict_plan(shape(0, 0), 7), Ok(PredictPlan::Uniform));
}

#[test]
fn predict_plan_checks_query_dimension() {
    assert_eq!(predict_plan(shape(2, 5), 5), Ok(PredictPlan::Blend));
    assert_eq!(
        predict_plan(shape(2, 5), 4),
        Err(EngineError::QueryDimensionMismatch { query_dim: 4, pattern_dim: 5 })
    );
}

#[test]
fn projection_must_be_square() {
    assert_eq!(projection_dim(&[2, 2]), Ok(2));
    assert_eq!(projection_dim(&[3, 3]), Err(ProjectionError::NotSquare { rows: 2, cols: 3 }));
    assert_eq!(projection_dim(&[]), Ok(0));
}

#[test]
fn projection_values_must_fill_the_matrix() {
    assert_eq!(projection_dim(&[3, 2, 3]), Err(ProjectionError::ShapeMismatch));
    assert_eq!(projection_dim(&[3, 3, 9]), Err(ProjectionError::ShapeMismatch));
    // rows are read one after another: a ragged matrix that still holds n * n values passes
    assert_eq!(projection_dim(&[3, 2, 4]), Ok(3));
}
