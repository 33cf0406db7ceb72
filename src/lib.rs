//! Golden-section search for the minimum of a one-dimensional unimodal
//! objective, on a fixed-point grid of positions.

pub mod problem;
pub mod search;
pub mod value;

pub use problem::{UnimodalProblem, UnimodalProblemBuilder, TICKS_PER_UNIT};
pub use search::{golden_section_search, golden_section_trace, SearchError, MIN_XTOL};
pub use value::Value;
