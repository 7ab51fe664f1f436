use lucet_runtime_internals::dynval::{EmptyYieldVal, Trap};
use lucet_runtime_internals::instance::{RunResult, TerminationDetails, YieldedVal};
use lucet_runtime_internals::val::UntypedRetVal;

// Because of deref coercions, the code above was tricky to get right-
// test that a string makes it through
#[test]
fn termination_details_any_typing() {
    let hello = "hello, world".to_owned();
    let details = TerminationDetails::provide(hello.clone());
    let provided = details.provided_details().expect("got Provided");
    assert_eq!(
        provided.downcast_ref::<String>().expect("right type"),
        &hello
    );
}

#[test]
fn provided_details_absent_for_other_terminations() {
    assert!(TerminationDetails::Signal.provided_details().is_none());
    assert!(TerminationDetails::Remote.provided_details().is_none());
}

#[test]
fn provided_details_wrong_type_is_none() {
    let details = TerminationDetails::provide(42u64);
    let provided = details.provided_details().expect("got Provided");
    assert!(provided.downcast_ref::<String>().is_none());
    assert_eq!(provided.downcast_ref::<u64>(), Some(&42u64));
}

#[test]
fn as_exitcode_reads_proc_exit() {
    let details = TerminationDetails::provide(Trap::I32Exit(3));
    assert_eq!(details.as_exitcode(), Some(3));
    let details = TerminationDetails::provide(Trap::I32Exit(-1));
    assert_eq!(details.as_exitcode(), Some(u32::MAX));
    let details = TerminationDetails::provide(7u32);
    assert_eq!(details.as_exitcode(), None);
    assert_eq!(TerminationDetails::Signal.as_exitcode(), None);
}

#[test]
fn yielded_val_typing() {
    let yv = YieldedVal::new(5i64);
    assert!(yv.is::<i64>());
    assert!(!yv.is::<u64>());
    assert!(yv.is_some());
    assert!(!yv.is_none());
    assert_eq!(yv.downcast_ref::<i64>(), Some(&5i64));
    let yv = match yv.downcast::<u32>() {
        Ok(_) => panic!("wrong type accepted"),
        Err(yv) => yv,
    };
    assert_eq!(*yv.downcast::<i64>().expect("right type"), 5);

    let empty = YieldedVal::new(EmptyYieldVal);
    assert!(empty.is_none());
    assert!(!empty.is_some());
}

#[test]
fn run_result_accessors() {
    let rv = UntypedRetVal::new(120, 0);
    let rr = RunResult::Returned(rv);
    assert!(rr.is_returned());
    assert!(!rr.is_yielded());
    assert!(!rr.can_resume());
    assert!(!rr.has_yielded::<u64>());
    assert_eq!(u64::from(rr.unwrap_returned()), 120);

    let rr = RunResult::Yielded(YieldedVal::new(String::from("hi")));
    assert!(rr.is_yielded());
    assert!(rr.can_resume());
    assert!(rr.has_yielded::<String>());
    assert!(!rr.has_yielded::<u64>());
    assert!(rr.returned_ref().is_err());
    let yv = rr.expect_yielded("yielded");
    assert_eq!(yv.downcast_ref::<String>().map(|s| s.as_str()), Some("hi"));

    let rr = RunResult::Returned(UntypedRetVal::new(1, 0));
    assert!(rr.yielded().is_err());
    let rr = RunResult::Yielded(YieldedVal::new(true));
    assert!(rr.returned().is_err());
}
