//! Units of length.

pub mod metric;
