//! Percolator risk engine: pure functions over plain integers and
//! fixed-point `i128` values.

pub mod envelope;
pub mod haircut;
pub mod recovery;
pub mod side_index;
pub mod margin;
pub mod warmup;
