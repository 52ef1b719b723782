//! Verified core of the Livestar starfield renderer: the xorshift64* random
//! generator, the starfield sampling rules, the byte layout of the GPU
//! buffers and the surface lifecycle decisions.

pub mod rng;
pub mod starfield;
pub mod packing;
pub mod surface;
