//! A recursive encoder-decoder ("U-shaped") network topology, built to a given
//! depth, and a shape-level evaluator that walks the topology over a 4-D
//! tensor shape, realigning the spatial dimensions at every recursion level.
//!
//! The numeric work of a forward pass (convolution kernels, pooling, the
//! actual array data) belongs to an external tensor runtime and is not
//! modelled here. What this crate states and proves is the part the runtime
//! leaves to the caller: which operators the topology contains, how their
//! channel counts must relate, and how the spatial dimensions move through
//! downsampling, upsampling, cropping and concatenation so that every level's
//! output lines up with its input again.
pub mod arith;
pub mod shape;
pub mod topology;
pub mod eval;
pub mod plan;
