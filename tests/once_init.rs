use neatro::once::{decode_state, finish_step, finish_word, step_after, Once, OncePass, OnceState, OnceStep};
use neatro::once::{COMPLETE, INCOMPLETE, PANICKED, RUNNING};
use std::cell::Cell;

#[test]
fn test_once() {
    let func_ptr = Cell::new(0usize);
    let once = Once::new();
    once.run_once(|| func_ptr.set(2));
    assert_eq!(func_ptr.get(), 2);
}

#[test]
fn initializer_runs_once() {
    let counter = Cell::new(0u32);
    let once = Once::new();
    let first = once.run_once(|| counter.set(counter.get() + 1));
    assert_eq!(first, OncePass { step: OnceStep::Proceed, ran: true });
    for _ in 0..4 {
        let pass = once.run_once(|| counter.set(counter.get() + 1));
        assert_eq!(pass, OncePass { step: OnceStep::Proceed, ran: false });
    }
    assert_eq!(counter.get(), 1);
    assert_eq!(once.poll(), OnceStep::Proceed);
}

#[test]
fn failed_initializer_fails_every_later_caller() {
    let once = Once::new();
    assert_eq!(once.try_run_once(|| false), OncePass { step: OnceStep::Fail, ran: true });
    let ran = Cell::new(false);
    assert_eq!(once.run_once(|| ran.set(true)), OncePass { step: OnceStep::Fail, ran: false });
    assert!(!ran.get());
    assert_eq!(once.poll(), OnceStep::Fail);
}

#[test]
fn successful_fallible_initializer_completes() {
    let once = Once::new();
    assert_eq!(once.try_run_once(|| true), OncePass { step: OnceStep::Proceed, ran: true });
    assert_eq!(once.try_run_once(|| false), OncePass { step: OnceStep::Proceed, ran: false });
}

#[test]
fn steps_for_each_state_word() {
    assert_eq!(decode_state(INCOMPLETE), Some(OnceState::Incomplete));
    assert_eq!(decode_state(RUNNING), Some(OnceState::Running));
    assert_eq!(decode_state(COMPLETE), Some(OnceState::Complete));
    assert_eq!(decode_state(PANICKED), Some(OnceState::Panicked));
    assert_eq!(decode_state(4), None);
    assert_eq!(step_after(COMPLETE), OnceStep::Proceed);
    assert_eq!(step_after(RUNNING), OnceStep::Wait);
    assert_eq!(step_after(PANICKED), OnceStep::Fail);
    assert_eq!(step_after(INCOMPLETE), OnceStep::Fail);
    assert_eq!(step_after(99), OnceStep::Fail);
    assert_eq!(finish_word(true), COMPLETE);
    assert_eq!(finish_word(false), PANICKED);
    assert_eq!(finish_step(true), OnceStep::Proceed);
    assert_eq!(finish_step(false), OnceStep::Fail);
}
