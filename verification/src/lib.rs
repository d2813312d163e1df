//! Plain-value cores of a small set of functions and types that a host
//! program offers to an embedded Julia runtime.
//!
//! Everything here works on ordinary Rust values, so it can be used and
//! reasoned about without a running interpreter. Boxing values into the
//! runtime and rooting them is left to the caller.

pub mod arith;
pub mod counter;
pub mod text;
