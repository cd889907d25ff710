//! The callback guard: which engine events reach the user's closure.
//!
//! The engine calls back from its own threads, possibly while the client is
//! being torn down. Each call passes through the guard: an event whose payload
//! did not decode is dropped, and once the guard is closed nothing is delivered.
use vstd::prelude::*;

verus! {

/// What the guard hands on for a decoded event (`Some`) or a payload that did
/// not decode (`None`).
pub open spec fn admitted<E>(open: bool, decoded: Option<E>) -> Option<E> {
    if open {
        decoded
    } else {
        None
    }
}

/// A liveness flag between the engine's callbacks and the user's closure.
pub struct CallbackGuard {
    open: bool,
}

impl CallbackGuard {
    pub closed spec fn is_open(&self) -> bool {
        self.open
    }

    /// An open guard, for a client that has just been built.
    pub fn new() -> (r: CallbackGuard)
        ensures
            r.is_open(),
    {
        CallbackGuard { open: true }
    }

    pub fn open(&self) -> (r: bool)
        ensures
            r == self.is_open(),
    {
        self.open
    }

    /// Closes the guard for good, before the client's resources are released.
    pub fn close(&mut self)
        ensures
            !final(self).is_open(),
    {
        self.open = false;
    }

    /// Decides what reaches the user's closure for one engine event: the
    /// decoded event while the guard is open, nothing otherwise.
    pub fn pass_event<E>(&self, decoded: Option<E>) -> (r: Option<E>)
        ensures
            r == admitted(self.is_open(), decoded),
    {
        if self.open {
            decoded
        } else {
            None
        }
    }
}

/// The number of events that reach the closure when the engine delivers
/// `events` through a guard that is open or closed throughout.
pub open spec fn delivered_count<E>(open: bool, events: Seq<Option<E>>) -> nat
    decreases events.len(),
{
    if events.len() == 0 {
        0
    } else {
        delivered_count(open, events.drop_last()) + if admitted(open, events.last()) is Some {
            1nat
        } else {
            0nat
        }
    }
}

/// The number of payloads that decoded among `events`.
pub open spec fn decoded_count<E>(events: Seq<Option<E>>) -> nat
    decreases events.len(),
{
    if events.len() == 0 {
        0
    } else {
        decoded_count(events.drop_last()) + if events.last() is Some {
            1nat
        } else {
            0nat
        }
    }
}

/// Once the guard is closed, no event reaches the closure, whatever the
/// engine still sends.
pub proof fn lemma_closed_guard_delivers_nothing<E>(g: CallbackGuard, events: Seq<Option<E>>)
    requires
        !g.is_open(),
    ensures
        delivered_count(g.is_open(), events) == 0,
        forall|i: int| 0 <= i < events.len() ==> admitted(g.is_open(), #[trigger] events[i]) is None,
    decreases events.len(),
{
    if events.len() > 0 {
        lemma_closed_guard_delivers_nothing(g, events.drop_last());
    }
}

/// While the guard is open, the closure runs once for each payload that
/// decoded and never for one that did not.
pub proof fn lemma_only_decoded_events_delivered<E>(g: CallbackGuard, events: Seq<Option<E>>)
    requires
        g.is_open(),
    ensures
        delivered_count(g.is_open(), events) == decoded_count(events),
        forall|i: int| 0 <= i < events.len() ==> admitted(g.is_open(), #[trigger] events[i]) == events[i],
    decreases events.len(),
{
    if events.len() > 0 {
        lemma_only_decoded_events_delivered(g, events.drop_last());
    }
}

} // verus!
