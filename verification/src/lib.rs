//! Verified rules of the PCAM memory engine: request validation, the memory-set
//! store, pattern-shape checks of the engine, the projection-matrix shape check
//! of the model configuration, and the decision logic of the Nelder–Mead
//! precision optimiser.  The floating-point numerics live in `app/`.
pub mod shape;
pub mod validate;
pub mod set_id;
pub mod store;
pub mod engine;
pub mod projection;
pub mod simplex;
