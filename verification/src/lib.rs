//! Two small verified kernels behind a pair of teaching demos: summing a
//! vector of `u32`, and the lifecycle of a reference-counted immutable text
//! value shared between owners.

pub mod shared_text;
pub mod summation;
