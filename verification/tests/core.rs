//! Unit tests of the verified core: validation, loop-locals, and the
//! invocation state machine.

use handlebars_repeat::RepeatHelper;
use handlebars_repeat::invocation::{ParamValue, RepeatError, validate};
use handlebars_repeat::locals::LoopLocals;
use handlebars_repeat::session::{RepeatSession, Step};

#[test]
fn helper_name() {
    assert_eq!(RepeatHelper.name(), "repeat");
}

#[test]
fn validate_missing_argument() {
    assert_eq!(validate(None, true), Err(RepeatError::ArgumentMissing));
    assert_eq!(validate(None, false), Err(RepeatError::ArgumentMissing));
}

#[test]
fn validate_incompatible_argument() {
    assert_eq!(
        validate(Some(ParamValue::Incompatible), true),
        Err(RepeatError::ArgumentTypeMismatch)
    );
    assert_eq!(
        validate(Some(ParamValue::Incompatible), false),
        Err(RepeatError::ArgumentTypeMismatch)
    );
}

#[test]
fn validate_missing_body() {
    for count in [0, 1, 2, 3, u64::MAX] {
        assert_eq!(
            validate(Some(ParamValue::Uint(count)), false),
            Err(RepeatError::BlockBodyRequired)
        );
    }
}

#[test]
fn validate_accepts_count_with_body() {
    for count in [0, 1, 7, u64::MAX] {
        assert_eq!(validate(Some(ParamValue::Uint(count)), true), Ok(count));
    }
}

#[test]
fn locals_of_three_iterations() {
    let l0 = LoopLocals::new(0, 3);
    assert_eq!(l0, LoopLocals { index: 0, first: true, last: false });
    let l1 = LoopLocals::new(1, 3);
    assert_eq!(l1, LoopLocals { index: 1, first: false, last: false });
    let l2 = LoopLocals::new(2, 3);
    assert_eq!(l2, LoopLocals { index: 2, first: false, last: true });
}

#[test]
fn locals_of_a_single_iteration() {
    let l = LoopLocals::new(0, 1);
    assert!(l.first);
    assert!(l.last);
    assert_eq!(l.index, 0);
}

#[test]
fn session_walks_two_iterations_in_order() {
    let mut s = RepeatSession::start(Some(ParamValue::Uint(2)), true, true).unwrap();
    assert_eq!(
        s.next_step(),
        Step::Iterate(LoopLocals { index: 0, first: true, last: false })
    );
    s.record_body(true);
    assert_eq!(
        s.next_step(),
        Step::Iterate(LoopLocals { index: 1, first: false, last: true })
    );
    s.record_body(true);
    assert_eq!(s.next_step(), Step::Done);
}

#[test]
fn session_zero_count_renders_fallback_once() {
    let mut s = RepeatSession::start(Some(ParamValue::Uint(0)), true, true).unwrap();
    assert_eq!(s.next_step(), Step::Fallback);
    s.record_fallback(true);
    assert_eq!(s.next_step(), Step::Done);
}

#[test]
fn session_zero_count_without_fallback_is_done_at_once() {
    let s = RepeatSession::start(Some(ParamValue::Uint(0)), true, false).unwrap();
    assert_eq!(s.next_step(), Step::Done);
}

#[test]
fn session_failure_stops_the_run() {
    let mut s = RepeatSession::start(Some(ParamValue::Uint(3)), true, false).unwrap();
    assert_eq!(
        s.next_step(),
        Step::Iterate(LoopLocals { index: 0, first: true, last: false })
    );
    s.record_body(false);
    assert_eq!(s.next_step(), Step::Failed);
    assert_eq!(s.next_step(), Step::Failed);
}

#[test]
fn session_rejects_invalid_invocations() {
    assert!(matches!(
        RepeatSession::start(None, true, false),
        Err(RepeatError::ArgumentMissing)
    ));
    assert!(matches!(
        RepeatSession::start(Some(ParamValue::Incompatible), true, true),
        Err(RepeatError::ArgumentTypeMismatch)
    ));
    assert!(matches!(
        RepeatSession::start(Some(ParamValue::Uint(2)), false, false),
        Err(RepeatError::BlockBodyRequired)
    ));
}
