//! A small two-dimensional vector library over 32-bit signed integers.
//!
//! Every operation is a total function of its inputs, with one exception:
//! division asks for a non-zero divisor. Arithmetic that leaves the range of
//! `i32` wraps around in two's complement, and the contracts say so exactly.
pub mod arith;
pub mod vec2;
