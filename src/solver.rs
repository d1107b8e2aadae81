//! The solvers that run under the driver.
pub mod bfgs;
pub mod newton;
pub mod dogleg;
pub mod landweber;
pub mod steepestdescent;
