use vstd::prelude::*;

use crate::error::PriorityError;
use crate::protocol::{calls, run, Outcome, PriorityTranslator, Reply, Step};
use crate::scale::PRIORITY_HIGH;

verus! {

/// The value by which `getpriority` and `setpriority` report failure. For
/// `getpriority` it is also the nice value -1, so it tells failure only
/// together with the error code.
pub const FAILURE: i32 = -1;

/// The native calls of a priority operation on Unix. Each is answered by a
/// [`Reply`] whose value is what the call returned.
#[derive(Clone, Copy, Debug, PartialEq, Eq, Structural)]
pub enum Call {
    /// Set the calling thread's `errno` to 0. Its answer is not looked at.
    ClearErrno,
    /// `getpriority(PRIO_PROCESS, pid)`.
    GetPriority { pid: u32 },
    /// `setpriority(PRIO_PROCESS, pid, priority)`.
    SetPriority { pid: u32, priority: i32 },
}

/// What an operation on Unix remembers while a call is under way.
#[derive(Clone, Copy, Debug, PartialEq, Eq, Structural)]
pub enum Pending {
    /// `errno` is being cleared, to ask for the priority of `pid` next.
    Clearing { pid: u32 },
    /// The priority was asked for.
    Querying,
    /// The priority is being set.
    Updating,
}

/// The first step of reading the priority of `pid`: clear `errno`, so that
/// what it holds after `getpriority` was put there by that call.
pub open spec fn query(pid: u32) -> Step<Call, Pending> {
    Step::Call { call: Call::ClearErrno, pending: Pending::Clearing { pid } }
}

/// The first step of setting the priority of `pid`: the nice value is the
/// unified priority, so it goes to `setpriority` as it is.
pub open spec fn update(pid: u32, priority: i32) -> Step<Call, Pending> {
    Step::Call { call: Call::SetPriority { pid, priority }, pending: Pending::Updating }
}

/// What a query ends with when `getpriority` answered `reply`.
///
/// The nice value is the unified priority and is handed on unchanged. The
/// one exception is -1: with an error code it is a failure, and with none it
/// is answered by a high priority that stands for it.
pub open spec fn query_outcome(reply: Reply<i32>) -> Result<Outcome, PriorityError> {
    if reply.value != FAILURE {
        Ok(Outcome::Priority(reply.value))
    } else if reply.code == 0 {
        Ok(Outcome::Priority(PRIORITY_HIGH))
    } else {
        Err(PriorityError::Os { code: reply.code })
    }
}

/// What an update ends with when `setpriority` answered `reply`.
pub open spec fn update_outcome(reply: Reply<i32>) -> Result<Outcome, PriorityError> {
    if reply.value == FAILURE {
        Err(PriorityError::Os { code: reply.code })
    } else {
        Ok(Outcome::Applied)
    }
}

/// The step that follows `pending` once its call was answered by `reply`.
pub open spec fn after(pending: Pending, reply: Reply<i32>) -> Step<Call, Pending> {
    match pending {
        Pending::Clearing { pid } => Step::Call {
            call: Call::GetPriority { pid },
            pending: Pending::Querying,
        },
        Pending::Querying => Step::Done(query_outcome(reply)),
        Pending::Updating => Step::Done(update_outcome(reply)),
    }
}

/// Begins reading the priority of `pid`, where 0 stands for the calling
/// process.
pub fn get_priority(pid: u32) -> (step: Step<Call, Pending>)
    ensures
        step == query(pid),
{
    Step::Call { call: Call::ClearErrno, pending: Pending::Clearing { pid } }
}

/// Begins setting the priority of `pid`, where 0 stands for the calling
/// process, to `priority`.
pub fn set_priority(pid: u32, priority: i32) -> (step: Step<Call, Pending>)
    ensures
        step == update(pid, priority),
{
    Step::Call { call: Call::SetPriority { pid, priority }, pending: Pending::Updating }
}

/// Takes the operation on from `pending`, given what its call answered.
pub fn resume(pending: Pending, reply: Reply<i32>) -> (step: Step<Call, Pending>)
    ensures
        step == after(pending, reply),
{
    match pending {
        Pending::Clearing { pid } => Step::Call {
            call: Call::GetPriority { pid },
            pending: Pending::Querying,
        },
        Pending::Querying => {
            if reply.value != FAILURE {
                Step::Done(Ok(Outcome::Priority(reply.value)))
            } else if reply.code == 0 {
                Step::Done(Ok(Outcome::Priority(PRIORITY_HIGH)))
            } else {
                Step::Done(Err(PriorityError::Os { code: reply.code }))
            }
        },
        Pending::Updating => {
            if reply.value == FAILURE {
                Step::Done(Err(PriorityError::Os { code: reply.code }))
            } else {
                Step::Done(Ok(Outcome::Applied))
            }
        },
    }
}

/// Unix, as a [`PriorityTranslator`].
pub struct Unix;

impl PriorityTranslator for Unix {
    type Call = Call;

    type Pending = Pending;

    type Value = i32;

    open spec fn query(pid: u32) -> Step<Call, Pending> {
        query(pid)
    }

    open spec fn update(pid: u32, priority: i32) -> Step<Call, Pending> {
        update(pid, priority)
    }

    open spec fn after(pending: Pending, reply: Reply<i32>) -> Step<Call, Pending> {
        after(pending, reply)
    }

    fn get_priority(pid: u32) -> (step: Step<Call, Pending>) {
        get_priority(pid)
    }

    fn set_priority(pid: u32, priority: i32) -> (step: Step<Call, Pending>) {
        set_priority(pid, priority)
    }

    fn resume(pending: Pending, reply: Reply<i32>) -> (step: Step<Call, Pending>) {
        resume(pending, reply)
    }
}

/// A query clears `errno` and asks for the priority directly after, with no
/// call between the two, and is over with the answer to the second.
pub proof fn query_clears_errno_first(pid: u32, replies: Seq<Reply<i32>>)
    requires
        replies.len() >= 2,
    ensures
        calls::<Unix>(query(pid), replies) == seq![Call::ClearErrno, Call::GetPriority { pid }],
        run::<Unix>(query(pid), replies) == Step::<Call, Pending>::Done(query_outcome(replies[1])),
{
    reveal_with_fuel(run, 3);
    reveal_with_fuel(calls, 3);
}

/// The nice value that the system reports is what a query answers, unchanged
/// and whatever `errno` holds, unless the value is -1.
pub proof fn query_hands_on_the_nice_value(pid: u32, replies: Seq<Reply<i32>>)
    requires
        replies.len() >= 2,
        replies[1].value != FAILURE,
    ensures
        run::<Unix>(query(pid), replies) == Step::<Call, Pending>::Done(
            Ok(Outcome::Priority(replies[1].value)),
        ),
{
    query_clears_errno_first(pid, replies);
}

/// Where the system reports -1, `errno` tells a priority from a failure: left
/// at 0 it gives the high priority that stands for -1, and any other code gives
/// the failure with that code.
pub proof fn query_tells_minus_one_from_failure(pid: u32, replies: Seq<Reply<i32>>)
    requires
        replies.len() >= 2,
        replies[1].value == FAILURE,
    ensures
        run::<Unix>(query(pid), replies) == Step::<Call, Pending>::Done(
            if replies[1].code == 0 {
                Ok(Outcome::Priority(PRIORITY_HIGH))
            } else {
                Err(PriorityError::Os { code: replies[1].code })
            },
        ),
{
    query_clears_errno_first(pid, replies);
}

/// An update makes one call, with the priority as it was given, and is over
/// with the answer to it.
pub proof fn update_is_one_call(pid: u32, priority: i32, replies: Seq<Reply<i32>>)
    requires
        replies.len() >= 1,
    ensures
        calls::<Unix>(update(pid, priority), replies) == seq![Call::SetPriority { pid, priority }],
        run::<Unix>(update(pid, priority), replies) == Step::<Call, Pending>::Done(
            update_outcome(replies[0]),
        ),
{
    reveal_with_fuel(run, 2);
    reveal_with_fuel(calls, 2);
}

/// A query that finds the nice value that an update has set answers with the
/// update's priority, unless that is -1.
pub proof fn query_reads_what_update_set(pid: u32, priority: i32, replies: Seq<Reply<i32>>)
    requires
        priority != FAILURE,
        replies.len() >= 2,
        replies[1].value == priority,
    ensures
        run::<Unix>(query(pid), replies) == Step::<Call, Pending>::Done(
            Ok(Outcome::Priority(priority)),
        ),
{
    query_hands_on_the_nice_value(pid, replies);
}

} // verus!
