//! Failures of a run and the reasons a run stops.
use vstd::prelude::*;

verus! {

/// Why a run failed.
#[derive(PartialEq, Eq, Structural, Clone, Copy, Debug)]
pub enum ArgminError {
    /// A solver was configured with a value outside its allowed range.
    InvalidParameter,
    /// The operator does not provide a capability that the solver needs.
    NotImplemented,
    /// A computation has no representable result: a singular matrix, a
    /// division by zero or a value too large for the fixed-point range.
    NumericalFailure,
    /// An internal invariant does not hold for the given inputs.
    ImpossibleError,
}

/// Why a run stopped. Every reason but `NotTerminated` ends the run.
#[derive(PartialEq, Eq, Structural, Clone, Copy, Debug)]
pub enum TerminationReason {
    NotTerminated,
    MaxItersReached,
    TargetPrecisionReached,
    NoChangeInCost,
}

impl TerminationReason {
    pub open spec fn is_terminal(self) -> bool {
        self != TerminationReason::NotTerminated
    }

    /// Tells whether the run has stopped.
    pub fn terminated(&self) -> (r: bool)
        ensures
            r == self.is_terminal(),
    {
        !matches!(self, TerminationReason::NotTerminated)
    }

    /// A short description of the reason.
    pub fn text(&self) -> (r: &'static str) {
        match self {
            TerminationReason::NotTerminated => "Not terminated",
            TerminationReason::MaxItersReached => "Maximum number of iterations reached",
            TerminationReason::TargetPrecisionReached => "Target precision reached",
            TerminationReason::NoChangeInCost => "No change in cost function value",
        }
    }
}

} // verus!
