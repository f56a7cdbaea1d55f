use vstd::prelude::*;

use crate::error::PermissionDenied;

verus! {

/// The capability state of the embedding runtime, as far as this library
/// needs it.
///
/// The embedding runtime implements it, and nothing here holds such an
/// implementation to the contract of `check_sys`: what the operations state of a
/// refusal is true of implementations that keep it.
pub trait NodePermissions {
    /// Decides whether the system operation `kind`, asked for by the call
    /// site `api_name`, may go on. The answer may differ from one call to
    /// the next, and nothing is said of when it is a refusal. A refusal
    /// carries the call site that it was asked about.
    fn check_sys(&mut self, kind: &str, api_name: &str) -> (checked: Result<(), PermissionDenied>)
        ensures
            checked matches Err(denied) ==> denied.descriptor@ == api_name@,
    ;
}

/// The operations that pass the capability check.
#[derive(Clone, Copy, Debug, PartialEq, Eq, Structural)]
pub enum Capability {
    GetPriority,
    SetPriority,
    UserInfo,
}

impl Capability {
    /// The name by which the check knows the operation.
    pub open spec fn kind_text(self) -> Seq<char> {
        match self {
            Capability::GetPriority => "getPriority"@,
            Capability::SetPriority => "setPriority"@,
            Capability::UserInfo => "userInfo"@,
        }
    }

    /// The call site that the check reports when it refuses.
    pub open spec fn api_text(self) -> Seq<char> {
        match self {
            Capability::GetPriority => "node:os.getPriority()"@,
            Capability::SetPriority => "node:os.setPriority()"@,
            Capability::UserInfo => "node:os.userInfo()"@,
        }
    }

    /// The name by which the check knows the operation.
    pub fn kind(self) -> (text: &'static str)
        ensures
            text@ == self.kind_text(),
    {
        match self {
            Capability::GetPriority => "getPriority",
            Capability::SetPriority => "setPriority",
            Capability::UserInfo => "userInfo",
        }
    }

    /// The call site that the check reports when it refuses.
    pub fn api_name(self) -> (text: &'static str)
        ensures
            text@ == self.api_text(),
    {
        match self {
            Capability::GetPriority => "node:os.getPriority()",
            Capability::SetPriority => "node:os.setPriority()",
            Capability::UserInfo => "node:os.userInfo()",
        }
    }
}

/// Lets `value` through where the capability check has passed, and hands on
/// the refusal where it has not.
pub fn gate<V>(check: Result<(), PermissionDenied>, value: V) -> (passed: Result<
    V,
    PermissionDenied,
>)
    ensures
        passed == match check {
            Ok(_) => Ok::<V, PermissionDenied>(value),
            Err(denied) => Err(denied),
        },
{
    match check {
        Ok(_) => Ok(value),
        Err(denied) => Err(denied),
    }
}

} // verus!
