//! The initialisation state of the glib runtime, as one thread sees it.
//!
//! Glib is initialised once per process, from one thread, which becomes the
//! main thread: the only one from which glib may then be used.

use vstd::prelude::*;

verus! {

/// What the current thread knows about glib's initialisation: whether glib
/// has been initialised in this process, and whether the current thread is
/// the one that did it (the main thread). Only an initialised process has a
/// main thread.
#[derive(Clone, Copy, Debug, PartialEq, Eq)]
pub struct InitState {
    initialized: bool,
    main_thread: bool,
}

/// Why glib may not be used from the current thread.
#[derive(Clone, Copy, Debug, PartialEq, Eq)]
pub enum RuntimeError {
    /// `init` has not been called in this process.
    NotInitialized,
    /// Glib was initialised from another thread.
    NotMainThread,
}

impl InitState {
    /// Only an initialised process has a main thread.
    #[verifier::type_invariant]
    pub closed spec fn wf(self) -> bool {
        self.main_thread ==> self.initialized
    }

    /// Whether glib has been initialised in this process.
    pub closed spec fn spec_initialized(self) -> bool {
        self.initialized
    }

    /// Whether the current thread is the main thread.
    pub closed spec fn spec_main_thread(self) -> bool {
        self.main_thread
    }

    /// The state with the given flags; a main thread exists only in an
    /// initialised process.
    pub fn new(initialized: bool, main_thread: bool) -> (r: InitState)
        requires
            main_thread ==> initialized,
        ensures
            r.spec_initialized() == initialized,
            r.spec_main_thread() == main_thread,
    {
        InitState { initialized, main_thread }
    }
}

/// Whether a thread in state `s` may initialise glib: it is the main thread
/// already, or no thread has initialised glib yet.
pub open spec fn may_initialize(s: InitState) -> bool {
    s.spec_main_thread() || !s.spec_initialized()
}

/// What a use of glib from a thread in state `s` is answered.
pub open spec fn main_thread_check(s: InitState) -> Result<(), RuntimeError> {
    if s.spec_main_thread() {
        Ok(())
    } else if s.spec_initialized() {
        Err(RuntimeError::NotMainThread)
    } else {
        Err(RuntimeError::NotInitialized)
    }
}

/// Returns `true` if Glib has been initialized and this is the main thread.
pub fn is_initialized_main_thread(state: &InitState) -> (r: bool)
    ensures
        r == state.spec_main_thread(),
        r ==> state.spec_initialized(),
{
    proof {
        use_type_invariant(state);
    }
    state.main_thread
}

/// Returns `true` if Glib has been initialized.
pub fn is_initialized(state: &InitState) -> (r: bool)
    ensures
        r == state.spec_initialized(),
        !r ==> !state.spec_main_thread(),
{
    proof {
        use_type_invariant(state);
    }
    state.initialized
}

/// Informs this crate that Glib has been initialized and the current thread
/// is the main one.
///
/// Initialising again from the main thread changes nothing; initialising
/// from a second thread is refused (the caller must not do it).
pub fn set_initialized(state: &mut InitState)
    requires
        may_initialize(*old(state)),
    ensures
        final(state).spec_initialized(),
        final(state).spec_main_thread(),
        old(state).spec_main_thread() ==> *final(state) == *old(state),
{
    proof {
        use_type_invariant(&*state);
    }
    if is_initialized_main_thread(state) {
        return;
    }
    *state = InitState { initialized: true, main_thread: true };
}

/// Tries to initialize Glib from the current thread.
pub fn init(state: &mut InitState)
    requires
        may_initialize(*old(state)),
    ensures
        final(state).spec_initialized(),
        final(state).spec_main_thread(),
        old(state).spec_main_thread() ==> *final(state) == *old(state),
{
    if is_initialized_main_thread(state) {
        return;
    }
    set_initialized(state);
}

/// Checks that glib may be used from the current thread: it has been
/// initialised, and from this thread.
pub fn check_initialized_main_thread(state: &InitState) -> (r: Result<(), RuntimeError>)
    ensures
        r == main_thread_check(*state),
{
    if is_initialized_main_thread(state) {
        Ok(())
    } else if is_initialized(state) {
        Err(RuntimeError::NotMainThread)
    } else {
        Err(RuntimeError::NotInitialized)
    }
}

/// A thread that has initialised glib may initialise it again, and may use
/// glib: initialising is idempotent, and grants use of glib.
pub proof fn lemma_main_thread_may_reinit(s: InitState)
    requires
        s.spec_main_thread(),
    ensures
        may_initialize(s),
        main_thread_check(s) == Ok::<(), RuntimeError>(()),
{
}

/// The main thread of a well-formed state belongs to an initialised process.
pub proof fn lemma_main_thread_is_initialized(s: InitState)
    requires
        s.wf(),
    ensures
        s.spec_main_thread() ==> s.spec_initialized(),
{
}

/// A thread that may not use glib gets an error that says why: a missing
/// initialisation, or another main thread.
pub proof fn lemma_check_explains_refusal(s: InitState)
    requires
        s.wf(),
    ensures
        main_thread_check(s) == Err::<(), RuntimeError>(RuntimeError::NotInitialized) <==> !s.spec_initialized(),
        main_thread_check(s) == Err::<(), RuntimeError>(RuntimeError::NotMainThread) <==> (s.spec_initialized()
            && !s.spec_main_thread()),
{
}

} // verus!
