//! The persistent contract state and the protocol's coarse phases.

use vstd::prelude::*;

verus! {

/// Identity of a party interacting with the contract.
///
/// The protocol needs nothing of an identity beyond comparison, so it is
/// a plain numeric handle; the hosting environment maps its own account
/// format onto it.
#[derive(Clone, Copy, PartialEq, Eq, Structural, Debug)]
pub struct Address {
    pub id: u64,
}

/// The protocol phase of the aggregation contract.
///
/// Transitions are one-directional: `Collecting` to `Computing` to `Done`.
#[derive(Clone, Copy, PartialEq, Eq, Structural, Debug)]
pub enum Phase {
    /// Secret contributions are being accepted.
    Collecting,
    /// The secure summation is in progress; inputs are closed.
    Computing,
    /// The aggregate has been published; terminal.
    Done,
}

/// The status that the secret-computation engine reports for itself.
#[derive(Clone, Copy, PartialEq, Eq, Structural, Debug)]
pub enum EngineStatus {
    /// The engine is idle and can accept a computation.
    Waiting,
    /// The engine is running a computation.
    Computing,
    /// The engine has finished and shut down.
    Done,
}

/// The persistent contract state.
#[derive(Clone, Copy, PartialEq, Eq, Debug)]
pub struct AggregationState {
    /// The single party authorized to start the computation.  Fixed at
    /// initialization, never reassigned.
    pub administrator: Address,
    /// Current protocol phase.
    pub phase: Phase,
    /// The disclosed sum.  `None` until the computation finishes, then
    /// written exactly once.
    pub sum_result: Option<u32>,
}

impl Phase {
    /// Position of the phase in the one-directional lifecycle.
    pub open spec fn rank(self) -> int {
        match self {
            Phase::Collecting => 0,
            Phase::Computing => 1,
            Phase::Done => 2,
        }
    }
}

impl AggregationState {
    /// Well-formedness: the result is present exactly when the protocol
    /// has reached its terminal phase.
    pub open spec fn wf(self) -> bool {
        (self.phase is Done) <==> (self.sum_result is Some)
    }
}

} // verus!
