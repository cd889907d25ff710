//! The lifecycle of one engine instance.
use vstd::prelude::*;

verus! {

/// Where an engine instance stands.
#[derive(Clone, Copy, Debug, PartialEq, Eq, Structural)]
pub enum EngineState {
    /// No instance exists yet.
    Uncreated,
    /// The create call returned a valid handle.
    Created,
    /// The start call was made: the engine takes audio and emits events.
    Started,
    /// The destroy call was made: the handle is gone.
    Destroyed,
}

/// Why an engine instance could not be set up.
#[derive(Clone, Copy, Debug, PartialEq, Eq, Structural)]
pub enum SessionError {
    /// The create call returned a null handle.
    CreationFailed,
}

/// The lifecycle of the instance that one client owns.
pub struct EngineSession {
    state: EngineState,
}

impl EngineSession {
    pub closed spec fn state_of(&self) -> EngineState {
        self.state
    }

    /// A session before the create call.
    pub fn new() -> (r: EngineSession)
        ensures
            r.state_of() == EngineState::Uncreated,
    {
        EngineSession { state: EngineState::Uncreated }
    }

    pub fn state(&self) -> (r: EngineState)
        ensures
            r == self.state_of(),
    {
        self.state
    }

    /// Records the outcome of the create call: a null handle is a creation
    /// failure, and leaves nothing to destroy.
    pub fn on_created(&mut self, handle_is_null: bool) -> (r: Result<(), SessionError>)
        requires
            old(self).state_of() == EngineState::Uncreated,
        ensures
            handle_is_null ==> r == Err::<(), SessionError>(SessionError::CreationFailed)
                && final(self).state_of() == EngineState::Uncreated,
            !handle_is_null ==> r is Ok && final(self).state_of() == EngineState::Created,
    {
        if handle_is_null {
            Err(SessionError::CreationFailed)
        } else {
            self.state = EngineState::Created;
            Ok(())
        }
    }

    /// Records the start call, made once after creation.
    pub fn on_started(&mut self)
        requires
            old(self).state_of() == EngineState::Created,
        ensures
            final(self).state_of() == EngineState::Started,
    {
        self.state = EngineState::Started;
    }

    /// Whether audio may be pushed: only to a started, undestroyed instance.
    pub fn accepts_audio(&self) -> (r: bool)
        ensures
            r == (self.state_of() == EngineState::Started),
    {
        self.state == EngineState::Started
    }

    /// Ends the session. Returns whether the destroy call must be made now:
    /// exactly when an instance exists that was not destroyed yet.
    pub fn teardown(&mut self) -> (r: bool)
        ensures
            r == needs_destroy(old(self).state_of()),
            final(self).state_of() == after_teardown(old(self).state_of()),
    {
        let live = self.state == EngineState::Created || self.state == EngineState::Started;
        if live {
            self.state = EngineState::Destroyed;
        }
        live
    }
}

/// Whether an instance exists in state `s` that the destroy call must end.
pub open spec fn needs_destroy(s: EngineState) -> bool {
    s == EngineState::Created || s == EngineState::Started
}

/// The state after a teardown from state `s`.
pub open spec fn after_teardown(s: EngineState) -> EngineState {
    if needs_destroy(s) {
        EngineState::Destroyed
    } else {
        s
    }
}

/// Whatever the state, a second teardown makes no destroy call: the destroy
/// call is made at most once per instance.
pub proof fn lemma_destroy_at_most_once(s: EngineState)
    ensures
        !needs_destroy(after_teardown(s)),
        after_teardown(after_teardown(s)) == after_teardown(s),
{
}

} // verus!
