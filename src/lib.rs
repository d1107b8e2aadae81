//! An iteration engine for numerical optimisation over fixed-point
//! numbers: operators with evaluation counting, the per-iteration state, the
//! driver loop with its termination rules, and the solvers that plug into it.
pub mod fixed;
pub mod linalg;
pub mod inverse;
pub mod basics;
pub mod operator;
pub mod state;
pub mod executor;
pub mod solver;
pub mod testfunctions;
