use crate::errors::VmError;
use vstd::prelude::*;

verus! {

/// The state of the metering gate of an instance.
#[derive(Clone, Copy, Debug, PartialEq, Eq)]
pub enum Budget {
    /// This many points are left. Zero means that all points are used up but no call
    /// was cut short yet.
    Remaining(u64),
    /// A call was cut short because it asked for more points than were left.
    Exhausted,
}

impl Budget {
    /// The points that are left to spend: none once the budget ran out.
    pub open spec fn spec_gas_left(self) -> u64 {
        match self {
            Budget::Remaining(points) => points,
            Budget::Exhausted => 0,
        }
    }

    /// The points that are left to spend: none once the budget ran out.
    #[verifier::when_used_as_spec(spec_gas_left)]
    pub fn gas_left(self) -> (left: u64)
        ensures
            left == self.spec_gas_left(),
    {
        match self {
            Budget::Remaining(points) => points,
            Budget::Exhausted => 0,
        }
    }
}

/// The error that stands for a trap, given the budget found right after it: a trap
/// with the budget run out is a depleted budget, any other is the guest's own
/// failure and carries the engine's words.
pub open spec fn trap_outcome(budget: Budget, message: String) -> VmError {
    match budget {
        Budget::Remaining(_) => VmError::RuntimeError { msg: message },
        Budget::Exhausted => VmError::GasDepletion,
    }
}

/// Tells a call that ran out of budget from one that trapped for another reason.
pub fn classify_trap(budget: Budget, message: String) -> (error: VmError)
    ensures
        error == trap_outcome(budget, message),
{
    match budget {
        Budget::Remaining(_) => VmError::RuntimeError { msg: message },
        Budget::Exhausted => VmError::GasDepletion,
    }
}

/// A budget of so many remaining points reads as that number of points. This is the
/// step between `set_gas_left`, which leaves the budget at `Remaining(points)`, and
/// `get_gas_left`, which returns `gas_left` of the budget it finds.
pub proof fn lemma_remaining_budget(points: u64)
    ensures
        Budget::Remaining(points).gas_left() == points,
{
}

/// A budget that ran out reads as zero, and a trap that is found with it is
/// reported as a depleted budget, whatever the engine said of the trap. Both
/// `get_gas_left` and `call_function` go by the budget that the engine holds
/// after the call.
pub proof fn lemma_exhausted_budget(message: String)
    ensures
        Budget::Exhausted.gas_left() == 0,
        trap_outcome(Budget::Exhausted, message) == VmError::GasDepletion,
{
}

} // verus!
