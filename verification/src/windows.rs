use vstd::prelude::*;

use crate::error::PriorityError;
use crate::protocol::{calls, run, Outcome, PriorityTranslator, Reply, Step};
use crate::scale::{
    on_scale, PRIORITY_ABOVE_NORMAL, PRIORITY_BELOW_NORMAL, PRIORITY_HIGH, PRIORITY_HIGHEST,
    PRIORITY_LOW, PRIORITY_NORMAL,
};

verus! {

pub const NORMAL_PRIORITY_CLASS: u32 = 0x0000_0020;

pub const IDLE_PRIORITY_CLASS: u32 = 0x0000_0040;

pub const HIGH_PRIORITY_CLASS: u32 = 0x0000_0080;

pub const REALTIME_PRIORITY_CLASS: u32 = 0x0000_0100;

pub const BELOW_NORMAL_PRIORITY_CLASS: u32 = 0x0000_4000;

pub const ABOVE_NORMAL_PRIORITY_CLASS: u32 = 0x0000_8000;

/// The access right that a process handle is opened with: enough to ask for
/// the process's priority class, and no more.
pub const PROCESS_QUERY_LIMITED_INFORMATION: u32 = 0x1000;

/// The scheduling tiers that Windows knows.
#[derive(Clone, Copy, Debug, PartialEq, Eq, Structural)]
pub enum PriorityClass {
    Realtime,
    High,
    AboveNormal,
    Normal,
    BelowNormal,
    Idle,
}

impl PriorityClass {
    /// The number by which Windows knows the class.
    pub open spec fn code_of(self) -> u32 {
        match self {
            PriorityClass::Realtime => REALTIME_PRIORITY_CLASS,
            PriorityClass::High => HIGH_PRIORITY_CLASS,
            PriorityClass::AboveNormal => ABOVE_NORMAL_PRIORITY_CLASS,
            PriorityClass::Normal => NORMAL_PRIORITY_CLASS,
            PriorityClass::BelowNormal => BELOW_NORMAL_PRIORITY_CLASS,
            PriorityClass::Idle => IDLE_PRIORITY_CLASS,
        }
    }

    /// The unified priority that stands for the class: the lowest value of
    /// its band.
    pub open spec fn unified(self) -> i32 {
        match self {
            PriorityClass::Realtime => PRIORITY_HIGHEST,
            PriorityClass::High => PRIORITY_HIGH,
            PriorityClass::AboveNormal => PRIORITY_ABOVE_NORMAL,
            PriorityClass::Normal => PRIORITY_NORMAL,
            PriorityClass::BelowNormal => PRIORITY_BELOW_NORMAL,
            PriorityClass::Idle => PRIORITY_LOW,
        }
    }

    /// Whether `priority` lies in the band of unified values that the class
    /// takes in. Each band starts at the class's own value and ends just
    /// before the next class's; the last holds the lowest priority alone.
    pub open spec fn takes(self, priority: int) -> bool {
        match self {
            PriorityClass::Realtime => PRIORITY_HIGHEST <= priority < PRIORITY_HIGH,
            PriorityClass::High => PRIORITY_HIGH <= priority < PRIORITY_ABOVE_NORMAL,
            PriorityClass::AboveNormal => PRIORITY_ABOVE_NORMAL <= priority < PRIORITY_NORMAL,
            PriorityClass::Normal => PRIORITY_NORMAL <= priority < PRIORITY_BELOW_NORMAL,
            PriorityClass::BelowNormal => PRIORITY_BELOW_NORMAL <= priority < PRIORITY_LOW,
            PriorityClass::Idle => priority == PRIORITY_LOW,
        }
    }

    /// The class whose band holds `priority`, for a priority on the unified
    /// scale.
    pub open spec fn at(priority: int) -> PriorityClass {
        if priority < PRIORITY_HIGH {
            PriorityClass::Realtime
        } else if priority < PRIORITY_ABOVE_NORMAL {
            PriorityClass::High
        } else if priority < PRIORITY_NORMAL {
            PriorityClass::AboveNormal
        } else if priority < PRIORITY_BELOW_NORMAL {
            PriorityClass::Normal
        } else if priority < PRIORITY_LOW {
            PriorityClass::BelowNormal
        } else {
            PriorityClass::Idle
        }
    }

    /// The class that Windows knows by `code`, if it is one of the six.
    pub open spec fn known_by(code: u32) -> Option<PriorityClass> {
        if code == REALTIME_PRIORITY_CLASS {
            Some(PriorityClass::Realtime)
        } else if code == HIGH_PRIORITY_CLASS {
            Some(PriorityClass::High)
        } else if code == ABOVE_NORMAL_PRIORITY_CLASS {
            Some(PriorityClass::AboveNormal)
        } else if code == NORMAL_PRIORITY_CLASS {
            Some(PriorityClass::Normal)
        } else if code == BELOW_NORMAL_PRIORITY_CLASS {
            Some(PriorityClass::BelowNormal)
        } else if code == IDLE_PRIORITY_CLASS {
            Some(PriorityClass::Idle)
        } else {
            None
        }
    }

    /// The number by which Windows knows the class.
    pub fn code(self) -> (code: u32)
        ensures
            code == self.code_of(),
    {
        match self {
            PriorityClass::Realtime => REALTIME_PRIORITY_CLASS,
            PriorityClass::High => HIGH_PRIORITY_CLASS,
            PriorityClass::AboveNormal => ABOVE_NORMAL_PRIORITY_CLASS,
            PriorityClass::Normal => NORMAL_PRIORITY_CLASS,
            PriorityClass::BelowNormal => BELOW_NORMAL_PRIORITY_CLASS,
            PriorityClass::Idle => IDLE_PRIORITY_CLASS,
        }
    }

    /// The class that Windows knows by `code`, if it is one of the six.
    pub fn from_code(code: u32) -> (class: Option<PriorityClass>)
        ensures
            class == Self::known_by(code),
    {
        if code == REALTIME_PRIORITY_CLASS {
            Some(PriorityClass::Realtime)
        } else if code == HIGH_PRIORITY_CLASS {
            Some(PriorityClass::High)
        } else if code == ABOVE_NORMAL_PRIORITY_CLASS {
            Some(PriorityClass::AboveNormal)
        } else if code == NORMAL_PRIORITY_CLASS {
            Some(PriorityClass::Normal)
        } else if code == BELOW_NORMAL_PRIORITY_CLASS {
            Some(PriorityClass::BelowNormal)
        } else if code == IDLE_PRIORITY_CLASS {
            Some(PriorityClass::Idle)
        } else {
            None
        }
    }
}

/// The unified priority that stands for `class`.
pub fn unified_of(class: PriorityClass) -> (priority: i32)
    ensures
        priority == class.unified(),
{
    match class {
        PriorityClass::Realtime => PRIORITY_HIGHEST,
        PriorityClass::High => PRIORITY_HIGH,
        PriorityClass::AboveNormal => PRIORITY_ABOVE_NORMAL,
        PriorityClass::Normal => PRIORITY_NORMAL,
        PriorityClass::BelowNormal => PRIORITY_BELOW_NORMAL,
        PriorityClass::Idle => PRIORITY_LOW,
    }
}

/// The class whose band holds `priority`. A value off the unified scale
/// belongs to no class and is refused.
pub fn windows_class_of(priority: i32) -> (class: Result<PriorityClass, PriorityError>)
    ensures
        class is Ok <==> on_scale(priority as int),
        class matches Ok(c) ==> c.takes(priority as int),
        class matches Err(e) ==> e == PriorityError::InvalidArgument,
{
    if priority < PRIORITY_HIGHEST || priority > PRIORITY_LOW {
        Err(PriorityError::InvalidArgument)
    } else if priority < PRIORITY_HIGH {
        Ok(PriorityClass::Realtime)
    } else if priority < PRIORITY_ABOVE_NORMAL {
        Ok(PriorityClass::High)
    } else if priority < PRIORITY_NORMAL {
        Ok(PriorityClass::AboveNormal)
    } else if priority < PRIORITY_BELOW_NORMAL {
        Ok(PriorityClass::Normal)
    } else if priority < PRIORITY_LOW {
        Ok(PriorityClass::BelowNormal)
    } else {
        Ok(PriorityClass::Idle)
    }
}

/// What a query answers when Windows reports the class by `code`: the class's
/// unified value, and the lowest priority for a code that is none of the six.
pub open spec fn unified_of_code(code: u32) -> i32 {
    match PriorityClass::known_by(code) {
        Some(class) => class.unified(),
        None => PRIORITY_LOW,
    }
}

/// The native calls of a priority operation on Windows. Each is answered by
/// a [`Reply`] whose value is what the call returned, with a process handle
/// given as 0 where it is null and as any other number where it is not.
#[derive(Clone, Copy, Debug, PartialEq, Eq, Structural)]
pub enum Call {
    /// `GetCurrentProcess()`: the handle of the calling process.
    CurrentProcess,
    /// `OpenProcess(access, FALSE, pid)`: a handle of the process `pid`.
    OpenProcess { access: u32, pid: u32 },
    /// `GetPriorityClass(handle)`, on the handle that was obtained.
    GetPriorityClass,
    /// `SetPriorityClass(handle, class)`, on the handle that was obtained.
    SetPriorityClass { class: PriorityClass },
    /// `CloseHandle(handle)`, on the handle that was obtained.
    CloseHandle,
}

/// What an operation on Windows remembers while a call is under way.
#[derive(Debug, PartialEq, Eq)]
pub enum Pending {
    /// A handle was asked for, to read the priority class through it.
    OpeningToQuery,
    /// A handle was asked for, to set the priority class to `class`.
    OpeningToApply { class: PriorityClass },
    /// The priority class was asked for. The handle is open.
    Querying,
    /// The priority class is being set. The handle is open.
    Applying,
    /// The handle is being closed; `outcome` is what the operation ends with.
    Closing { outcome: Result<Outcome, PriorityError> },
}

/// The call that obtains a handle of `pid`, where 0 stands for the calling
/// process.
pub open spec fn acquire(pid: u32) -> Call {
    if pid == 0 {
        Call::CurrentProcess
    } else {
        Call::OpenProcess { access: PROCESS_QUERY_LIMITED_INFORMATION, pid }
    }
}

/// The first step of reading the priority of `pid`: obtain a handle.
pub open spec fn query(pid: u32) -> Step<Call, Pending> {
    Step::Call { call: acquire(pid), pending: Pending::OpeningToQuery }
}

/// The first step of setting the priority of `pid`. A priority off the scale
/// ends the operation at once; otherwise a handle is obtained, and the class
/// that takes the priority in is remembered.
pub open spec fn update(pid: u32, priority: i32) -> Step<Call, Pending> {
    if on_scale(priority as int) {
        Step::Call {
            call: acquire(pid),
            pending: Pending::OpeningToApply { class: PriorityClass::at(priority as int) },
        }
    } else {
        Step::Done(Err(PriorityError::InvalidArgument))
    }
}

/// The error that a failed call leaves behind.
pub open spec fn failure(reply: Reply<u32>) -> PriorityError {
    PriorityError::Os { code: reply.code }
}

/// The step that follows `pending` once its call was answered by `reply`.
///
/// A handle that could not be obtained ends the operation with the system's
/// error. Once a handle is open, whatever the next call answers, the handle is
/// closed before the operation ends.
pub open spec fn after(pending: Pending, reply: Reply<u32>) -> Step<Call, Pending> {
    match pending {
        Pending::OpeningToQuery => if reply.value == 0 {
            Step::Done(Err(failure(reply)))
        } else {
            Step::Call { call: Call::GetPriorityClass, pending: Pending::Querying }
        },
        Pending::OpeningToApply { class } => if reply.value == 0 {
            Step::Done(Err(failure(reply)))
        } else {
            Step::Call { call: Call::SetPriorityClass { class }, pending: Pending::Applying }
        },
        Pending::Querying => Step::Call {
            call: Call::CloseHandle,
            pending: Pending::Closing {
                outcome: if reply.value == 0 {
                    Err(failure(reply))
                } else {
                    Ok(Outcome::Priority(unified_of_code(reply.value)))
                },
            },
        },
        Pending::Applying => Step::Call {
            call: Call::CloseHandle,
            pending: Pending::Closing {
                outcome: if reply.value == 0 {
                    Err(failure(reply))
                } else {
                    Ok(Outcome::Applied)
                },
            },
        },
        Pending::Closing { outcome } => Step::Done(outcome),
    }
}

fn acquire_call(pid: u32) -> (call: Call)
    ensures
        call == acquire(pid),
{
    if pid == 0 {
        Call::CurrentProcess
    } else {
        Call::OpenProcess { access: PROCESS_QUERY_LIMITED_INFORMATION, pid }
    }
}

/// Begins reading the priority of `pid`, where 0 stands for the calling
/// process.
pub fn get_priority(pid: u32) -> (step: Step<Call, Pending>)
    ensures
        step == query(pid),
{
    Step::Call { call: acquire_call(pid), pending: Pending::OpeningToQuery }
}

/// Begins setting the priority of `pid`, where 0 stands for the calling
/// process, to `priority`. A priority off the unified scale is refused before
/// any native call.
pub fn set_priority(pid: u32, priority: i32) -> (step: Step<Call, Pending>)
    ensures
        step == update(pid, priority),
{
    match windows_class_of(priority) {
        Err(refused) => Step::Done(Err(refused)),
        Ok(class) => Step::Call {
            call: acquire_call(pid),
            pending: Pending::OpeningToApply { class },
        },
    }
}

/// The unified priority for the class that Windows reports by `code`.
pub fn unified_of_raw(code: u32) -> (priority: i32)
    ensures
        priority == unified_of_code(code),
{
    match PriorityClass::from_code(code) {
        Some(class) => unified_of(class),
        None => PRIORITY_LOW,
    }
}

/// Takes the operation on from `pending`, given what its call answered.
pub fn resume(pending: Pending, reply: Reply<u32>) -> (step: Step<Call, Pending>)
    ensures
        step == after(pending, reply),
{
    match pending {
        Pending::OpeningToQuery => {
            if reply.value == 0 {
                Step::Done(Err(PriorityError::Os { code: reply.code }))
            } else {
                Step::Call { call: Call::GetPriorityClass, pending: Pending::Querying }
            }
        },
        Pending::OpeningToApply { class } => {
            if reply.value == 0 {
                Step::Done(Err(PriorityError::Os { code: reply.code }))
            } else {
                Step::Call { call: Call::SetPriorityClass { class }, pending: Pending::Applying }
            }
        },
        Pending::Querying => {
            let outcome = if reply.value == 0 {
                Err(PriorityError::Os { code: reply.code })
            } else {
                Ok(Outcome::Priority(unified_of_raw(reply.value)))
            };
            Step::Call { call: Call::CloseHandle, pending: Pending::Closing { outcome } }
        },
        Pending::Applying => {
            let outcome = if reply.value == 0 {
                Err(PriorityError::Os { code: reply.code })
            } else {
                Ok(Outcome::Applied)
            };
            Step::Call { call: Call::CloseHandle, pending: Pending::Closing { outcome } }
        },
        Pending::Closing { outcome } => Step::Done(outcome),
    }
}

/// Windows, as a [`PriorityTranslator`].
pub struct Windows;

impl PriorityTranslator for Windows {
    type Call = Call;

    type Pending = Pending;

    type Value = u32;

    open spec fn query(pid: u32) -> Step<Call, Pending> {
        query(pid)
    }

    open spec fn update(pid: u32, priority: i32) -> Step<Call, Pending> {
        update(pid, priority)
    }

    open spec fn after(pending: Pending, reply: Reply<u32>) -> Step<Call, Pending> {
        after(pending, reply)
    }

    fn get_priority(pid: u32) -> (step: Step<Call, Pending>) {
        get_priority(pid)
    }

    fn set_priority(pid: u32, priority: i32) -> (step: Step<Call, Pending>) {
        set_priority(pid, priority)
    }

    fn resume(pending: Pending, reply: Reply<u32>) -> (step: Step<Call, Pending>) {
        resume(pending, reply)
    }
}

/// The bands cover the unified scale and nothing else, and no two of them
/// meet: a priority on the scale is taken in by its class and by no other.
pub proof fn bands_partition_scale(priority: int, class: PriorityClass)
    ensures
        class.takes(priority) <==> on_scale(priority) && class == PriorityClass::at(priority),
{
}

/// Going from a priority to its class and back lands in the band the priority
/// started in, on the band's lowest value: the class takes in its own unified
/// value too, and that value is not above the priority.
pub proof fn round_trip_stays_in_band(priority: int, class: PriorityClass)
    requires
        class.takes(priority),
    ensures
        class.takes(class.unified() as int),
        class.unified() <= priority,
{
}

/// A lower priority never gets a class that stands for a higher one.
pub proof fn classes_keep_order(low: int, high: int, a: PriorityClass, b: PriorityClass)
    requires
        a.takes(low),
        b.takes(high),
        low <= high,
    ensures
        a.unified() <= b.unified(),
{
}

/// Each class is found again by its code and by its unified value.
pub proof fn class_is_found_again(class: PriorityClass)
    ensures
        PriorityClass::known_by(class.code_of()) == Some(class),
        PriorityClass::at(class.unified() as int) == class,
        unified_of_code(class.code_of()) == class.unified(),
{
}

/// Whatever code Windows reports, the priority that a query answers with lies
/// on the unified scale.
pub proof fn reported_class_stays_on_scale(code: u32)
    ensures
        on_scale(unified_of_code(code) as int),
{
}

/// What a query ends with when the handle was asked for with the answer
/// `opened` and the priority class with the answer `class`.
pub open spec fn query_outcome(opened: Reply<u32>, class: Reply<u32>) -> Result<
    Outcome,
    PriorityError,
> {
    if opened.value == 0 {
        Err(failure(opened))
    } else if class.value == 0 {
        Err(failure(class))
    } else {
        Ok(Outcome::Priority(unified_of_code(class.value)))
    }
}

/// What an update ends with when the handle was asked for with the answer
/// `opened` and the change of class with the answer `applied`.
pub open spec fn update_outcome(opened: Reply<u32>, applied: Reply<u32>) -> Result<
    Outcome,
    PriorityError,
> {
    if opened.value == 0 {
        Err(failure(opened))
    } else if applied.value == 0 {
        Err(failure(applied))
    } else {
        Ok(Outcome::Applied)
    }
}

/// A query closes the handle on every way to its end. It asks for a handle;
/// where it gets none it ends with that failure, having made no other call;
/// where it gets one it asks for the priority class and then, whatever the
/// answer, closes the handle as its last call. Three answers at most bring it
/// to its end.
pub proof fn query_closes_its_handle(pid: u32, replies: Seq<Reply<u32>>)
    requires
        replies.len() >= 1,
        replies[0].value == 0 || replies.len() >= 3,
    ensures
        run::<Windows>(query(pid), replies) == Step::<Call, Pending>::Done(
            query_outcome(replies[0], replies[1]),
        ),
        calls::<Windows>(query(pid), replies) == if replies[0].value == 0 {
            seq![acquire(pid)]
        } else {
            seq![acquire(pid), Call::GetPriorityClass, Call::CloseHandle]
        },
{
    reveal_with_fuel(run, 4);
    reveal_with_fuel(calls, 4);
}

/// An update with a priority off the scale is refused as an invalid argument
/// without a single native call, whatever the process.
pub proof fn update_off_scale_makes_no_call(pid: u32, priority: i32, replies: Seq<Reply<u32>>)
    requires
        !on_scale(priority as int),
    ensures
        run::<Windows>(update(pid, priority), replies) == Step::<Call, Pending>::Done(
            Err(PriorityError::InvalidArgument),
        ),
        calls::<Windows>(update(pid, priority), replies) == Seq::<Call>::empty(),
{
    reveal_with_fuel(run, 2);
    reveal_with_fuel(calls, 2);
}

/// An update with a priority on the scale closes the handle on every way to
/// its end, as a query does, and sets the class of the priority's band.
pub proof fn update_closes_its_handle(pid: u32, priority: i32, replies: Seq<Reply<u32>>)
    requires
        on_scale(priority as int),
        replies.len() >= 1,
        replies[0].value == 0 || replies.len() >= 3,
    ensures
        run::<Windows>(update(pid, priority), replies) == Step::<Call, Pending>::Done(
            update_outcome(replies[0], replies[1]),
        ),
        calls::<Windows>(update(pid, priority), replies) == if replies[0].value == 0 {
            seq![acquire(pid)]
        } else {
            seq![
                acquire(pid),
                Call::SetPriorityClass { class: PriorityClass::at(priority as int) },
                Call::CloseHandle,
            ]
        },
{
    reveal_with_fuel(run, 4);
    reveal_with_fuel(calls, 4);
}

/// A query that finds the class that an update has set answers with the
/// update's priority, brought down to the lowest value of its band. For the
/// normal priority that is the normal priority itself.
pub proof fn query_reads_what_update_set(pid: u32, priority: i32, replies: Seq<Reply<u32>>)
    requires
        on_scale(priority as int),
        replies.len() >= 3,
        replies[0].value != 0,
        replies[1].value == PriorityClass::at(priority as int).code_of(),
    ensures
        run::<Windows>(query(pid), replies) == Step::<Call, Pending>::Done(
            Ok(Outcome::Priority(PriorityClass::at(priority as int).unified())),
        ),
        priority == PRIORITY_NORMAL ==> run::<Windows>(query(pid), replies) == Step::<
            Call,
            Pending,
        >::Done(Ok(Outcome::Priority(PRIORITY_NORMAL))),
{
    query_closes_its_handle(pid, replies);
    class_is_found_again(PriorityClass::at(priority as int));
}

} // verus!
