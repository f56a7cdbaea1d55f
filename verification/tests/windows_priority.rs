use node_os::error::PriorityError;
use node_os::protocol::{Outcome, Reply, Step};
use node_os::windows::{
    get_priority, resume, set_priority, unified_of, unified_of_raw, windows_class_of, Call,
    Pending, PriorityClass, ABOVE_NORMAL_PRIORITY_CLASS, BELOW_NORMAL_PRIORITY_CLASS,
    HIGH_PRIORITY_CLASS, IDLE_PRIORITY_CLASS, NORMAL_PRIORITY_CLASS,
    PROCESS_QUERY_LIMITED_INFORMATION, REALTIME_PRIORITY_CLASS,
};

const ACCESS_DENIED: i32 = 5;
const INVALID_PARAMETER: i32 = 87;

/// A process table of one process, answering native calls as Windows would.
struct FakeWindows {
    class: u32,
    refuse_open: bool,
    refuse_query: bool,
    refuse_apply: bool,
    open_handles: i32,
    calls: Vec<Call>,
}

impl FakeWindows {
    fn with_class(class: u32) -> FakeWindows {
        FakeWindows {
            class,
            refuse_open: false,
            refuse_query: false,
            refuse_apply: false,
            open_handles: 0,
            calls: Vec::new(),
        }
    }

    fn perform(&mut self, call: Call) -> Reply<u32> {
        self.calls.push(call);
        match call {
            Call::CurrentProcess | Call::OpenProcess { .. } => {
                if self.refuse_open {
                    Reply { value: 0, code: ACCESS_DENIED }
                } else {
                    self.open_handles += 1;
                    Reply { value: 0x1f4, code: 0 }
                }
            }
            Call::GetPriorityClass => {
                assert_eq!(self.open_handles, 1);
                if self.refuse_query {
                    Reply { value: 0, code: INVALID_PARAMETER }
                } else {
                    Reply { value: self.class, code: 0 }
                }
            }
            Call::SetPriorityClass { class } => {
                assert_eq!(self.open_handles, 1);
                if self.refuse_apply {
                    Reply { value: 0, code: ACCESS_DENIED }
                } else {
                    self.class = class.code();
                    Reply { value: 1, code: 0 }
                }
            }
            Call::CloseHandle => {
                assert_eq!(self.open_handles, 1);
                self.open_handles -= 1;
                Reply { value: 1, code: 0 }
            }
        }
    }

    fn drive(&mut self, first: Step<Call, Pending>) -> Result<Outcome, PriorityError> {
        let mut step = first;
        loop {
            match step {
                Step::Done(outcome) => return outcome,
                Step::Call { call, pending } => {
                    let reply = self.perform(call);
                    step = resume(pending, reply);
                }
            }
        }
    }
}

#[test]
fn each_class_has_its_windows_code() {
    assert_eq!(PriorityClass::Normal.code(), 0x20);
    assert_eq!(PriorityClass::Idle.code(), 0x40);
    assert_eq!(PriorityClass::High.code(), 0x80);
    assert_eq!(PriorityClass::Realtime.code(), 0x100);
    assert_eq!(PriorityClass::BelowNormal.code(), 0x4000);
    assert_eq!(PriorityClass::AboveNormal.code(), 0x8000);
    assert_eq!(NORMAL_PRIORITY_CLASS, 0x20);
    assert_eq!(IDLE_PRIORITY_CLASS, 0x40);
    assert_eq!(HIGH_PRIORITY_CLASS, 0x80);
    assert_eq!(REALTIME_PRIORITY_CLASS, 0x100);
    assert_eq!(BELOW_NORMAL_PRIORITY_CLASS, 0x4000);
    assert_eq!(ABOVE_NORMAL_PRIORITY_CLASS, 0x8000);
}

#[test]
fn each_class_is_found_by_its_code() {
    let classes = [
        PriorityClass::Realtime,
        PriorityClass::High,
        PriorityClass::AboveNormal,
        PriorityClass::Normal,
        PriorityClass::BelowNormal,
        PriorityClass::Idle,
    ];
    for class in classes {
        assert_eq!(PriorityClass::from_code(class.code()), Some(class));
    }
    assert_eq!(PriorityClass::from_code(0), None);
    assert_eq!(PriorityClass::from_code(0x21), None);
    assert_eq!(PriorityClass::from_code(0x0010_0000), None);
    assert_eq!(PriorityClass::from_code(u32::MAX), None);
}

#[test]
fn each_class_has_its_unified_value() {
    assert_eq!(unified_of(PriorityClass::Realtime), -20);
    assert_eq!(unified_of(PriorityClass::High), -14);
    assert_eq!(unified_of(PriorityClass::AboveNormal), -7);
    assert_eq!(unified_of(PriorityClass::Normal), 0);
    assert_eq!(unified_of(PriorityClass::BelowNormal), 10);
    assert_eq!(unified_of(PriorityClass::Idle), 19);
}

#[test]
fn a_reported_code_becomes_its_unified_value() {
    assert_eq!(unified_of_raw(0x100), -20);
    assert_eq!(unified_of_raw(0x80), -14);
    assert_eq!(unified_of_raw(0x8000), -7);
    assert_eq!(unified_of_raw(0x20), 0);
    assert_eq!(unified_of_raw(0x4000), 10);
    assert_eq!(unified_of_raw(0x40), 19);
}

#[test]
fn an_unknown_code_counts_as_lowest_priority() {
    assert_eq!(unified_of_raw(1), 19);
    assert_eq!(unified_of_raw(0x60), 19);
    assert_eq!(unified_of_raw(0x0020_0000), 19);
    assert_eq!(unified_of_raw(u32::MAX), 19);
}

#[test]
fn every_reported_code_answers_on_the_scale() {
    for code in 0..=0x1_0000u32 {
        assert!((-20..=19).contains(&unified_of_raw(code)));
    }
    for shift in 0..32 {
        assert!((-20..=19).contains(&unified_of_raw(1u32 << shift)));
    }
}

#[test]
fn bands_start_and_end_where_they_should() {
    assert_eq!(windows_class_of(-20), Ok(PriorityClass::Realtime));
    assert_eq!(windows_class_of(-15), Ok(PriorityClass::Realtime));
    assert_eq!(windows_class_of(-14), Ok(PriorityClass::High));
    assert_eq!(windows_class_of(-8), Ok(PriorityClass::High));
    assert_eq!(windows_class_of(-7), Ok(PriorityClass::AboveNormal));
    assert_eq!(windows_class_of(-1), Ok(PriorityClass::AboveNormal));
    assert_eq!(windows_class_of(0), Ok(PriorityClass::Normal));
    assert_eq!(windows_class_of(9), Ok(PriorityClass::Normal));
    assert_eq!(windows_class_of(10), Ok(PriorityClass::BelowNormal));
    assert_eq!(windows_class_of(18), Ok(PriorityClass::BelowNormal));
    assert_eq!(windows_class_of(19), Ok(PriorityClass::Idle));
}

#[test]
fn values_off_the_scale_have_no_class() {
    assert_eq!(windows_class_of(-21), Err(PriorityError::InvalidArgument));
    assert_eq!(windows_class_of(20), Err(PriorityError::InvalidArgument));
    assert_eq!(windows_class_of(-25), Err(PriorityError::InvalidArgument));
    assert_eq!(windows_class_of(25), Err(PriorityError::InvalidArgument));
    assert_eq!(windows_class_of(i32::MIN), Err(PriorityError::InvalidArgument));
    assert_eq!(windows_class_of(i32::MAX), Err(PriorityError::InvalidArgument));
}

#[test]
fn round_trip_stays_in_the_band() {
    for priority in -20..=19 {
        let class = windows_class_of(priority).unwrap();
        let back = unified_of(class);
        assert_eq!(windows_class_of(back), Ok(class));
        assert!(back <= priority);
    }
}

#[test]
fn below_normal_band_maps_back_to_ten() {
    for priority in 10..19 {
        let class = windows_class_of(priority).unwrap();
        assert_eq!(class, PriorityClass::BelowNormal);
        assert_eq!(unified_of(class), 10);
    }
}

#[test]
fn classes_follow_the_order_of_priorities() {
    for low in -20..=19 {
        for high in low..=19 {
            let a = unified_of(windows_class_of(low).unwrap());
            let b = unified_of(windows_class_of(high).unwrap());
            assert!(a <= b);
        }
    }
}

#[test]
fn query_starts_with_the_current_process_for_pid_zero() {
    assert_eq!(
        get_priority(0),
        Step::Call { call: Call::CurrentProcess, pending: Pending::OpeningToQuery }
    );
}

#[test]
fn query_opens_another_process_with_query_rights_only() {
    assert_eq!(PROCESS_QUERY_LIMITED_INFORMATION, 0x1000);
    assert_eq!(
        get_priority(4242),
        Step::Call {
            call: Call::OpenProcess { access: 0x1000, pid: 4242 },
            pending: Pending::OpeningToQuery,
        }
    );
}

#[test]
fn update_remembers_the_class_while_it_opens_the_process() {
    assert_eq!(
        set_priority(0, -7),
        Step::Call {
            call: Call::CurrentProcess,
            pending: Pending::OpeningToApply { class: PriorityClass::AboveNormal },
        }
    );
    assert_eq!(
        set_priority(77, 12),
        Step::Call {
            call: Call::OpenProcess { access: 0x1000, pid: 77 },
            pending: Pending::OpeningToApply { class: PriorityClass::BelowNormal },
        }
    );
}

#[test]
fn update_off_the_scale_is_refused_without_a_call() {
    for priority in [-25, 25, -21, 20] {
        for pid in [0, 4242] {
            assert_eq!(
                set_priority(pid, priority),
                Step::Done(Err(PriorityError::InvalidArgument))
            );
            let mut os = FakeWindows::with_class(NORMAL_PRIORITY_CLASS);
            assert_eq!(
                os.drive(set_priority(pid, priority)),
                Err(PriorityError::InvalidArgument)
            );
            assert!(os.calls.is_empty());
            assert_eq!(os.class, NORMAL_PRIORITY_CLASS);
        }
    }
}

#[test]
fn query_of_a_normal_process_answers_zero() {
    let mut os = FakeWindows::with_class(NORMAL_PRIORITY_CLASS);
    assert_eq!(os.drive(get_priority(0)), Ok(Outcome::Priority(0)));
    assert_eq!(os.calls, vec![Call::CurrentProcess, Call::GetPriorityClass, Call::CloseHandle]);
    assert_eq!(os.open_handles, 0);
}

#[test]
fn query_answers_for_each_class() {
    let cases = [
        (REALTIME_PRIORITY_CLASS, -20),
        (HIGH_PRIORITY_CLASS, -14),
        (ABOVE_NORMAL_PRIORITY_CLASS, -7),
        (NORMAL_PRIORITY_CLASS, 0),
        (BELOW_NORMAL_PRIORITY_CLASS, 10),
        (IDLE_PRIORITY_CLASS, 19),
        (0x0000_0200, 19),
    ];
    for (class, expected) in cases {
        let mut os = FakeWindows::with_class(class);
        assert_eq!(os.drive(get_priority(321)), Ok(Outcome::Priority(expected)));
        assert_eq!(
            os.calls,
            vec![
                Call::OpenProcess { access: 0x1000, pid: 321 },
                Call::GetPriorityClass,
                Call::CloseHandle,
            ]
        );
        assert_eq!(os.open_handles, 0);
    }
}

#[test]
fn update_then_query_of_normal_priority_answers_zero() {
    let mut os = FakeWindows::with_class(IDLE_PRIORITY_CLASS);
    assert_eq!(os.drive(set_priority(0, 0)), Ok(Outcome::Applied));
    assert_eq!(os.class, NORMAL_PRIORITY_CLASS);
    assert_eq!(os.drive(get_priority(0)), Ok(Outcome::Priority(0)));
    assert_eq!(os.open_handles, 0);
}

#[test]
fn update_then_query_answers_the_start_of_the_band() {
    for priority in -20..=19 {
        let mut os = FakeWindows::with_class(NORMAL_PRIORITY_CLASS);
        assert_eq!(os.drive(set_priority(0, priority)), Ok(Outcome::Applied));
        let expected = unified_of(windows_class_of(priority).unwrap());
        assert_eq!(os.drive(get_priority(0)), Ok(Outcome::Priority(expected)));
    }
}

#[test]
fn update_applies_the_class_and_closes_the_handle() {
    let mut os = FakeWindows::with_class(NORMAL_PRIORITY_CLASS);
    assert_eq!(os.drive(set_priority(9, -20)), Ok(Outcome::Applied));
    assert_eq!(os.class, REALTIME_PRIORITY_CLASS);
    assert_eq!(
        os.calls,
        vec![
            Call::OpenProcess { access: 0x1000, pid: 9 },
            Call::SetPriorityClass { class: PriorityClass::Realtime },
            Call::CloseHandle,
        ]
    );
    assert_eq!(os.open_handles, 0);
}

#[test]
fn a_handle_that_cannot_be_opened_ends_the_query() {
    let mut os = FakeWindows::with_class(NORMAL_PRIORITY_CLASS);
    os.refuse_open = true;
    assert_eq!(os.drive(get_priority(31)), Err(PriorityError::Os { code: ACCESS_DENIED }));
    assert_eq!(os.calls, vec![Call::OpenProcess { access: 0x1000, pid: 31 }]);
}

#[test]
fn a_handle_that_cannot_be_opened_ends_the_update() {
    let mut os = FakeWindows::with_class(NORMAL_PRIORITY_CLASS);
    os.refuse_open = true;
    assert_eq!(os.drive(set_priority(31, 5)), Err(PriorityError::Os { code: ACCESS_DENIED }));
    assert_eq!(os.calls, vec![Call::OpenProcess { access: 0x1000, pid: 31 }]);
    assert_eq!(os.class, NORMAL_PRIORITY_CLASS);
}

#[test]
fn a_failed_class_query_still_closes_the_handle() {
    let mut os = FakeWindows::with_class(NORMAL_PRIORITY_CLASS);
    os.refuse_query = true;
    assert_eq!(os.drive(get_priority(0)), Err(PriorityError::Os { code: INVALID_PARAMETER }));
    assert_eq!(os.calls, vec![Call::CurrentProcess, Call::GetPriorityClass, Call::CloseHandle]);
    assert_eq!(os.open_handles, 0);
}

#[test]
fn a_failed_class_change_still_closes_the_handle() {
    let mut os = FakeWindows::with_class(NORMAL_PRIORITY_CLASS);
    os.refuse_apply = true;
    assert_eq!(os.drive(set_priority(0, 19)), Err(PriorityError::Os { code: ACCESS_DENIED }));
    assert_eq!(
        os.calls,
        vec![
            Call::CurrentProcess,
            Call::SetPriorityClass { class: PriorityClass::Idle },
            Call::CloseHandle,
        ]
    );
    assert_eq!(os.open_handles, 0);
    assert_eq!(os.class, NORMAL_PRIORITY_CLASS);
}

#[test]
fn the_error_code_is_the_one_of_the_failed_call() {
    assert_eq!(
        resume(Pending::OpeningToQuery, Reply { value: 0, code: 6 }),
        Step::Done(Err(PriorityError::Os { code: 6 }))
    );
    assert_eq!(
        resume(
            Pending::OpeningToApply { class: PriorityClass::High },
            Reply { value: 0, code: -3 }
        ),
        Step::Done(Err(PriorityError::Os { code: -3 }))
    );
    assert_eq!(
        resume(Pending::Querying, Reply { value: 0, code: 1314 }),
        Step::Call {
            call: Call::CloseHandle,
            pending: Pending::Closing { outcome: Err(PriorityError::Os { code: 1314 }) },
        }
    );
    assert_eq!(
        resume(Pending::Applying, Reply { value: 0, code: 998 }),
        Step::Call {
            call: Call::CloseHandle,
            pending: Pending::Closing { outcome: Err(PriorityError::Os { code: 998 }) },
        }
    );
}

#[test]
fn the_error_code_of_a_call_that_worked_is_not_looked_at() {
    assert_eq!(
        resume(Pending::OpeningToQuery, Reply { value: 0x2a8, code: 5 }),
        Step::Call { call: Call::GetPriorityClass, pending: Pending::Querying }
    );
    assert_eq!(
        resume(Pending::Querying, Reply { value: 0x80, code: 5 }),
        Step::Call {
            call: Call::CloseHandle,
            pending: Pending::Closing { outcome: Ok(Outcome::Priority(-14)) },
        }
    );
    assert_eq!(
        resume(Pending::Applying, Reply { value: 1, code: 5 }),
        Step::Call {
            call: Call::CloseHandle,
            pending: Pending::Closing { outcome: Ok(Outcome::Applied) },
        }
    );
}

#[test]
fn closing_ends_with_the_outcome_whatever_close_answers() {
    assert_eq!(
        resume(
            Pending::Closing { outcome: Ok(Outcome::Priority(10)) },
            Reply { value: 0, code: 6 }
        ),
        Step::Done(Ok(Outcome::Priority(10)))
    );
    assert_eq!(
        resume(
            Pending::Closing { outcome: Err(PriorityError::Os { code: 5 }) },
            Reply { value: 1, code: 0 }
        ),
        Step::Done(Err(PriorityError::Os { code: 5 }))
    );
}
