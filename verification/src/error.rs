use vstd::prelude::*;

verus! {

/// Why a priority operation did not succeed.
#[derive(Clone, Copy, Debug, PartialEq, Eq, Structural)]
pub enum PriorityError {
    /// A native call reported failure. `code` is the error code that the
    /// operating system left for the calling thread.
    Os { code: i32 },
    /// The requested priority is not on the scale the platform accepts. No
    /// native call was made.
    InvalidArgument,
}

/// The capability check refused the operation.
#[derive(Clone, Debug, PartialEq, Eq)]
pub struct PermissionDenied {
    /// The call site that was refused, as handed to the check.
    pub descriptor: String,
}

} // verus!
