use vstd::prelude::*;

verus! {

/// The lowest priority on the unified scale.
pub const PRIORITY_LOW: i32 = 19;

/// A priority below the normal one.
pub const PRIORITY_BELOW_NORMAL: i32 = 10;

/// The priority that a process has unless it was given another.
pub const PRIORITY_NORMAL: i32 = 0;

/// A priority above the normal one.
pub const PRIORITY_ABOVE_NORMAL: i32 = -7;

/// A high priority.
pub const PRIORITY_HIGH: i32 = -14;

/// The highest priority on the unified scale.
pub const PRIORITY_HIGHEST: i32 = -20;

/// Whether `priority` lies on the unified scale.
pub open spec fn on_scale(priority: int) -> bool {
    PRIORITY_HIGHEST <= priority <= PRIORITY_LOW
}

} // verus!
