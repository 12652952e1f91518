//! Assembles the inputs of a batch state estimator for a ground vehicle that
//! carries a stereo camera: calibration constants, timestamped measurements,
//! landmark observations and noise variances, all read from a container of
//! named numeric arrays, plus two derived quantities (per-step time deltas
//! and the homogeneous camera/vehicle transform).
//!
//! The library does no floating-point arithmetic. Every 64-bit float is held
//! as its IEEE-754 bit pattern in a `u64`; the one arithmetic operation that
//! the assembly needs, the difference of two timestamps, is supplied by the
//! caller.

pub mod binary64;
pub mod container;
pub mod derived;
pub mod error;
pub mod estimator;
pub mod schema;
pub mod tensor;

pub use container::load;
pub use derived::{homogeneous_transform, time_steps};
pub use error::EstimationError;
pub use estimator::BatchEstimator;
pub use schema::scalar_of;
pub use tensor::Tensor;
