//! How far the limit on open files is to be raised.
//!
//! A server with thousands of connections needs thousands of file
//! descriptors, and the soft limit that a process starts with is often far
//! lower. Reading and setting the limits is left to the caller.

use vstd::prelude::*;

verus! {

/// The limits on the number of open files of a process.
#[derive(Clone, Copy, Debug, PartialEq, Eq, Structural)]
pub struct FileLimits {
    /// The limit in force.
    pub soft: u64,
    /// The most that the limit in force can be raised to.
    pub hard: u64,
}

/// The limits to set, and whether they fall short of what is recommended.
#[derive(Clone, Copy, Debug, PartialEq, Eq, Structural)]
pub struct LimitPlan {
    /// The limits to set.
    pub limits: FileLimits,
    /// Whether even the hard limit is below the recommended minimum.
    pub below_recommended: bool,
}

/// Plans to raise the soft limit as far as it goes: to the hard limit,
/// whether or not that reaches `recommended_min`.
pub fn plan_file_limits(current: FileLimits, recommended_min: u64) -> (plan: LimitPlan)
    ensures
        plan.limits.soft == current.hard,
        plan.limits.hard == current.hard,
        plan.below_recommended == (current.hard < recommended_min),
{
    LimitPlan {
        limits: FileLimits { soft: current.hard, hard: current.hard },
        below_recommended: current.hard < recommended_min,
    }
}

} // verus!
