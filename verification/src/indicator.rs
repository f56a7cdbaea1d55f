use vstd::prelude::*;

use crate::protocol::Reply;

verus! {

/// `errno::errno`: the error code that the operating system keeps for the
/// calling thread, as it stands when the call is made. Nothing is claimed of
/// the value.
#[verifier::external_body]
fn current_code() -> (code: i32) {
    errno::errno().0
}

/// `errno::set_errno`: makes `code` the error code that the operating system
/// keeps for the calling thread.
#[verifier::external_body]
fn store_code(code: i32) {
    errno::set_errno(errno::Errno(code))
}

/// Pairs `value`, which a native call has just returned, with the calling
/// thread's error code as it stands now. To get the code that the call left,
/// nothing that may change it must run between the call and this.
pub fn capture<V>(value: V) -> (reply: Reply<V>)
    ensures
        reply.value == value,
{
    Reply { value, code: current_code() }
}

/// Clears the calling thread's error code, and answers with what the code
/// reads directly after.
pub fn clear() -> (reply: Reply<i32>)
    ensures
        reply.value == 0,
{
    store_code(0);
    capture(0)
}

} // verus!
