use vstd::prelude::*;
use std::sync::atomic::{AtomicUsize, Ordering};

verus! {

/// The guard's state word: not yet run.
pub const INCOMPLETE: usize = 0;

/// The guard's state word: a caller is running the initializer.
pub const RUNNING: usize = 1;

/// The guard's state word: the initializer finished.
pub const COMPLETE: usize = 2;

/// The guard's state word: the initializer failed.
pub const PANICKED: usize = 3;

/// The states of a one-time-initialisation guard.
#[derive(Clone, Copy, Debug, PartialEq, Eq, Structural)]
pub enum OnceState {
    Incomplete,
    Running,
    Complete,
    Panicked,
}

/// What a caller does after a pass through the guard.
#[derive(Clone, Copy, Debug, PartialEq, Eq, Structural)]
pub enum OnceStep {
    /// The initializer has finished: go on.
    Proceed,
    /// Another caller is running the initializer: yield and look again.
    Wait,
    /// The initializer failed, or the guard is in a state it cannot be in: fail.
    Fail,
}

/// The state a state word stands for, if any.
pub open spec fn spec_decode(word: usize) -> Option<OnceState> {
    if word == INCOMPLETE {
        Some(OnceState::Incomplete)
    } else if word == RUNNING {
        Some(OnceState::Running)
    } else if word == COMPLETE {
        Some(OnceState::Complete)
    } else if word == PANICKED {
        Some(OnceState::Panicked)
    } else {
        None
    }
}

/// The step of a caller that did not run the initializer and saw `state`.
/// Seeing the guard not yet run after trying to claim it is a logic error.
pub open spec fn spec_step_for(state: Option<OnceState>) -> OnceStep {
    match state {
        Some(OnceState::Complete) => OnceStep::Proceed,
        Some(OnceState::Running) => OnceStep::Wait,
        _ => OnceStep::Fail,
    }
}

/// The result of one pass through the guard.
#[derive(Clone, Copy, Debug, PartialEq, Eq, Structural)]
pub struct OncePass {
    /// What the caller does next.
    pub step: OnceStep,
    /// Whether this caller ran the initializer.
    pub ran: bool,
}

/// The state word left by the caller that ran the initializer.
pub open spec fn spec_finish_word(succeeded: bool) -> usize {
    if succeeded {
        COMPLETE
    } else {
        PANICKED
    }
}

/// The step of the caller that ran the initializer.
pub open spec fn spec_finish_step(succeeded: bool) -> OnceStep {
    if succeeded {
        OnceStep::Proceed
    } else {
        OnceStep::Fail
    }
}

pub fn decode_state(word: usize) -> (r: Option<OnceState>)
    ensures
        r == spec_decode(word),
{
    if word == INCOMPLETE {
        Some(OnceState::Incomplete)
    } else if word == RUNNING {
        Some(OnceState::Running)
    } else if word == COMPLETE {
        Some(OnceState::Complete)
    } else if word == PANICKED {
        Some(OnceState::Panicked)
    } else {
        None
    }
}

/// The step of a caller that did not run the initializer and saw `word`.
pub fn step_after(word: usize) -> (r: OnceStep)
    ensures
        r == spec_step_for(spec_decode(word)),
{
    match decode_state(word) {
        Some(OnceState::Complete) => OnceStep::Proceed,
        Some(OnceState::Running) => OnceStep::Wait,
        _ => OnceStep::Fail,
    }
}

/// The state word that the caller that ran the initializer stores.
pub fn finish_word(succeeded: bool) -> (r: usize)
    ensures
        r == spec_finish_word(succeeded),
        spec_decode(r) == Some(if succeeded {
            OnceState::Complete
        } else {
            OnceState::Panicked
        }),
{
    if succeeded {
        COMPLETE
    } else {
        PANICKED
    }
}

/// The step of the caller that ran the initializer.
pub fn finish_step(succeeded: bool) -> (r: OnceStep)
    ensures
        r == spec_finish_step(succeeded),
{
    if succeeded {
        OnceStep::Proceed
    } else {
        OnceStep::Fail
    }
}

/// A lock-free guard that lets one initializer run once across any number
/// of callers. The state word moves from `INCOMPLETE` to `RUNNING` by one
/// compare-and-swap, which one caller wins; that caller runs the
/// initializer and stores `COMPLETE` or `PANICKED`, and the state never
/// changes after that. All accesses are sequentially consistent.
pub struct Once {
    state: AtomicUsize,
}

impl Once {
    pub fn new() -> (r: Once) {
        Once { state: AtomicUsize::new(INCOMPLETE) }
    }

    /// Claims the guard: `Ok` when this caller moved it from `INCOMPLETE` to
    /// `RUNNING` and must run the initializer; otherwise the step that the
    /// state word it saw calls for.
    fn claim(&self) -> (r: Result<(), OnceStep>)
        ensures
            r matches Err(step) ==> exists|w: usize| step == spec_step_for(spec_decode(w)),
    {
        let status = self.state.load(Ordering::SeqCst);
        if status != INCOMPLETE {
            return Err(step_after(status));
        }
        match self.state.compare_exchange(INCOMPLETE, RUNNING, Ordering::SeqCst, Ordering::SeqCst) {
            Ok(_) => Ok(()),
            Err(seen) => Err(step_after(seen)),
        }
    }

    /// One pass through the guard with an initializer that cannot fail. The
    /// caller that claims the guard runs `initializer`, marks the guard
    /// complete and gets `Proceed` with `ran` set; any other caller gets the
    /// step for the state it saw, and on `Wait` looks again with `poll`.
    pub fn run_once<F: FnOnce()>(&self, initializer: F) -> (r: OncePass)
        requires
            initializer.requires(()),
        ensures
            r.ran ==> r.step == OnceStep::Proceed && initializer.ensures((), ()),
            !r.ran ==> exists|w: usize| r.step == spec_step_for(spec_decode(w)),
    {
        match self.claim() {
            Ok(()) => {
                initializer();
                self.state.store(COMPLETE, Ordering::SeqCst);
                OncePass { step: OnceStep::Proceed, ran: true }
            },
            Err(step) => OncePass { step, ran: false },
        }
    }

    /// One pass through the guard with an initializer that reports whether
    /// it succeeded. The caller that claims the guard runs `initializer` and
    /// stores `COMPLETE` on success or `PANICKED` on failure, so that no
    /// caller waits for ever behind a failed initializer; it gets `Proceed`
    /// or `Fail` accordingly, with `ran` set.
    pub fn try_run_once<F: FnOnce() -> bool>(&self, initializer: F) -> (r: OncePass)
        requires
            initializer.requires(()),
        ensures
            r.ran ==> exists|b: bool| initializer.ensures((), b) && r.step == spec_finish_step(b),
            !r.ran ==> exists|w: usize| r.step == spec_step_for(spec_decode(w)),
    {
        match self.claim() {
            Ok(()) => {
                let succeeded = initializer();
                self.state.store(finish_word(succeeded), Ordering::SeqCst);
                OncePass { step: finish_step(succeeded), ran: true }
            },
            Err(step) => OncePass { step, ran: false },
        }
    }

    /// Looks at the guard again after a `Wait`.
    pub fn poll(&self) -> (r: OnceStep) {
        step_after(self.state.load(Ordering::SeqCst))
    }
}

} // verus!
