//! Storage for the low-degree extension of an execution trace, and the windowed
//! reads of it that per-step constraint evaluation relies on.

pub mod frame;
pub mod matrix;
pub mod trace_lde;

pub use frame::EvaluationFrame;
pub use matrix::RowMatrix;
pub use trace_lde::{TraceLde, TraceLdeError};
