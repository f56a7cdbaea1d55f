use errno::{errno, set_errno, Errno};
use node_os::indicator::{capture, clear};
use node_os::protocol::{Outcome, Reply, Step};
use node_os::error::PriorityError;
use node_os::unix::{resume, Pending};

#[test]
fn capture_reads_the_code_of_the_calling_thread() {
    set_errno(Errno(13));
    let reply = capture(-1);
    assert_eq!(reply, Reply { value: -1, code: 13 });
    set_errno(Errno(0));
    let reply = capture(7u32);
    assert_eq!(reply, Reply { value: 7u32, code: 0 });
}

#[test]
fn capture_leaves_the_code_as_it_is() {
    set_errno(Errno(3));
    let _ = capture(0);
    assert_eq!(errno(), Errno(3));
}

#[test]
fn clear_sets_the_code_to_zero() {
    set_errno(Errno(22));
    let reply = clear();
    assert_eq!(reply, Reply { value: 0, code: 0 });
    assert_eq!(errno(), Errno(0));
}

#[test]
fn a_captured_minus_one_after_clear_is_high_priority() {
    set_errno(Errno(13));
    let _ = clear();
    assert_eq!(resume(Pending::Querying, capture(-1)), Step::Done(Ok(Outcome::Priority(-14))));
}

#[test]
fn a_captured_minus_one_with_a_code_is_a_failure() {
    let _ = clear();
    set_errno(Errno(3));
    assert_eq!(
        resume(Pending::Querying, capture(-1)),
        Step::Done(Err(PriorityError::Os { code: 3 }))
    );
}
