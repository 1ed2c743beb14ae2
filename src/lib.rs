//! A path-tracing renderer's decision logic: the ordering of real numbers as
//! IEEE 754 double bit patterns, parameter intervals, root and closest-hit
//! selection, the bounce state machine of the path evaluator, and the plain
//! PPM text encoding of the final image.
pub mod hit;
pub mod interval;
pub mod order;
pub mod path;
pub mod ppm;
pub mod scatter;
