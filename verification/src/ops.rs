use vstd::prelude::*;

use crate::error::PermissionDenied;
use crate::permissions::{gate, Capability, NodePermissions};
use crate::protocol::{PriorityTranslator, Step};

verus! {

/// `whoami::username`: the name of the user who owns the process, as the
/// operating system reports it. Nothing is claimed of the name.
#[verifier::external_body]
fn os_username() -> (name: String) {
    whoami::username()
}

/// Begins reading the priority of `pid` on the platform `T`, if the
/// capability check lets it. A refusal comes before any native call: it
/// leaves no step to take, and names this operation's call site.
pub fn op_node_os_get_priority<P: NodePermissions, T: PriorityTranslator>(
    permissions: &mut P,
    pid: u32,
) -> (started: Result<Step<T::Call, T::Pending>, PermissionDenied>)
    ensures
        started matches Ok(step) ==> step == T::query(pid),
        started matches Err(denied) ==> denied.descriptor@ == Capability::GetPriority.api_text(),
{
    let check = permissions.check_sys(
        Capability::GetPriority.kind(),
        Capability::GetPriority.api_name(),
    );
    gate(check, T::get_priority(pid))
}

/// Begins setting the priority of `pid` to `priority` on the platform `T`, if
/// the capability check lets it. A refusal comes before any native call: it
/// leaves no step to take, and names this operation's call site.
pub fn op_node_os_set_priority<P: NodePermissions, T: PriorityTranslator>(
    permissions: &mut P,
    pid: u32,
    priority: i32,
) -> (started: Result<Step<T::Call, T::Pending>, PermissionDenied>)
    ensures
        started matches Ok(step) ==> step == T::update(pid, priority),
        started matches Err(denied) ==> denied.descriptor@ == Capability::SetPriority.api_text(),
{
    let check = permissions.check_sys(
        Capability::SetPriority.kind(),
        Capability::SetPriority.api_name(),
    );
    gate(check, T::set_priority(pid, priority))
}

/// The name of the user who owns the process, where the capability check
/// has passed; the refusal where it has not, and then the operating system
/// is not asked.
pub fn username_after(check: Result<(), PermissionDenied>) -> (name: Result<
    String,
    PermissionDenied,
>)
    ensures
        check is Ok ==> name is Ok,
        check matches Err(denied) ==> name == Err::<String, PermissionDenied>(denied),
{
    match gate(check, ()) {
        Ok(_) => Ok(os_username()),
        Err(denied) => Err(denied),
    }
}

/// The name of the user who owns the process, if the capability check lets
/// it be read. A refusal comes before the operating system is asked, and names
/// this operation's call site.
pub fn op_node_os_username<P: NodePermissions>(permissions: &mut P) -> (name: Result<
    String,
    PermissionDenied,
>)
    ensures
        name matches Err(denied) ==> denied.descriptor@ == Capability::UserInfo.api_text(),
{
    let check = permissions.check_sys(
        Capability::UserInfo.kind(),
        Capability::UserInfo.api_name(),
    );
    username_after(check)
}

} // verus!
