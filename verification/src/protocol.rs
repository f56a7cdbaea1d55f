use vstd::prelude::*;

use crate::error::PriorityError;

verus! {

/// What a finished operation hands to the caller.
#[derive(Clone, Copy, Debug, PartialEq, Eq, Structural)]
pub enum Outcome {
    /// The priority of the process, on the unified scale.
    Priority(i32),
    /// The priority of the process was changed.
    Applied,
}

/// What the operating system answered to one native call: the call's return
/// value, and the calling thread's error code as read right after the call.
#[derive(Clone, Copy, Debug, PartialEq, Eq)]
pub struct Reply<V> {
    /// What the call returned.
    pub value: V,
    /// The error code of the calling thread after the call. It tells
    /// something only where `value` reports a failure.
    pub code: i32,
}

/// Where an operation stands: either the caller owes it a native call, or it
/// is over.
#[derive(Debug, PartialEq, Eq)]
pub enum Step<C, P> {
    /// Make `call`, then resume from `pending` with the reply.
    Call { call: C, pending: P },
    /// Nothing is left to do.
    Done(Result<Outcome, PriorityError>),
}

/// A platform's way of reading and changing a process's priority, as a
/// conversation in native calls.
pub trait PriorityTranslator {
    /// The native calls of the platform.
    type Call;

    /// What an operation remembers while a call is under way.
    type Pending;

    /// The type of a native call's return value.
    type Value;

    /// The first step of reading the priority of `pid`.
    spec fn query(pid: u32) -> Step<Self::Call, Self::Pending>;

    /// The first step of setting the priority of `pid` to `priority`.
    spec fn update(pid: u32, priority: i32) -> Step<Self::Call, Self::Pending>;

    /// The step that follows `pending` once its call was answered by `reply`.
    spec fn after(pending: Self::Pending, reply: Reply<Self::Value>) -> Step<
        Self::Call,
        Self::Pending,
    >;

    /// Begins reading the priority of `pid`.
    fn get_priority(pid: u32) -> (step: Step<Self::Call, Self::Pending>)
        ensures
            step == Self::query(pid),
    ;

    /// Begins setting the priority of `pid` to `priority`.
    fn set_priority(pid: u32, priority: i32) -> (step: Step<Self::Call, Self::Pending>)
        ensures
            step == Self::update(pid, priority),
    ;

    /// Takes the operation on from `pending`, given what its call answered.
    fn resume(pending: Self::Pending, reply: Reply<Self::Value>) -> (step: Step<
        Self::Call,
        Self::Pending,
    >)
        ensures
            step == Self::after(pending, reply),
    ;
}

/// The step that a run reaches from `step` when the operating system answers
/// with `replies`, in order. Replies that arrive after the end are ignored.
pub open spec fn run<T: PriorityTranslator>(
    step: Step<T::Call, T::Pending>,
    replies: Seq<Reply<T::Value>>,
) -> Step<T::Call, T::Pending>
    decreases replies.len(),
{
    match step {
        Step::Call { call, pending } if replies.len() > 0 => run::<T>(
            T::after(pending, replies[0]),
            replies.skip(1),
        ),
        _ => step,
    }
}

/// The native calls that a run from `step` asks for while `replies` last, in
/// order. The last of them may still be unanswered.
pub open spec fn calls<T: PriorityTranslator>(
    step: Step<T::Call, T::Pending>,
    replies: Seq<Reply<T::Value>>,
) -> Seq<T::Call>
    decreases replies.len(),
{
    match step {
        Step::Done(_) => Seq::empty(),
        Step::Call { call, pending } => if replies.len() > 0 {
            seq![call] + calls::<T>(T::after(pending, replies[0]), replies.skip(1))
        } else {
            seq![call]
        },
    }
}

} // verus!
