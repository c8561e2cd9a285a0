//! Sequential digital logic in software: gates, level-sensitive latches,
//! rising-edge flip-flops built from master/slave latch pairs, and a ripple
//! counter chained from toggle-wired flip-flops.
//!
//! Every component is a plain owned value. Its behaviour is given as a
//! transition function over a small mathematical state, and each operation is
//! proved to follow that function.

pub mod gate;
pub mod latch;
pub mod flipflop;
pub mod counter;
