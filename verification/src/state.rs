//! Liveness and closing coordination for one segment.
//!
//! `SharedState` is the coordination record a segment keeps for all the
//! handles derived from it: a live-reference counter and a monotonic closing
//! flag.  Every handle creation increments the counter exactly once, every
//! handle release decrements it exactly once, and the closing flag never
//! reverts to false once set.

use vstd::prelude::*;

verus! {

/// Coordination state shared between a segment and its outstanding handles:
/// a live-reference counter and a one-way closing flag.
///
/// The ghost fields record how many handles were ever created and released,
/// so that the counter is provably the difference of the two.
pub struct SharedState {
    /// Number of live handles derived from the segment.
    pub ref_count: usize,
    /// True once a close has been initiated; never reverts to false.
    pub is_closing: bool,
    /// How many handles have ever been created.
    pub created: Ghost<nat>,
    /// How many handles have ever been released.
    pub released: Ghost<nat>,
}

impl SharedState {
    /// Well-formedness: no handle is released before it was created, and the
    /// live counter is exactly the creations minus the releases.
    pub open spec fn wf(self) -> bool {
        &&& self.released@ <= self.created@
        &&& self.ref_count as nat == self.created@ - self.released@
    }

    /// The state after one handle creation.
    pub open spec fn with_handle_created(self) -> SharedState {
        SharedState {
            ref_count: (self.ref_count + 1) as usize,
            created: Ghost((self.created@ + 1) as nat),
            ..self
        }
    }

    /// The state after one handle release.
    pub open spec fn with_handle_released(self) -> SharedState {
        SharedState {
            ref_count: (self.ref_count - 1) as usize,
            released: Ghost((self.released@ + 1) as nat),
            ..self
        }
    }

    /// The state after a close has been initiated.
    pub open spec fn with_closing_marked(self) -> SharedState {
        SharedState { is_closing: true, ..self }
    }

    /// A fresh state: no live handles, not closing.
    pub fn new() -> (s: SharedState)
        ensures
            s.wf(),
            s.ref_count == 0,
            !s.is_closing,
            s.created@ == 0,
            s.released@ == 0,
    {
        SharedState {
            ref_count: 0,
            is_closing: false,
            created: Ghost(0nat),
            released: Ghost(0nat),
        }
    }

    /// Record that one more handle is now live.
    pub fn handle_created(&mut self)
        requires
            old(self).wf(),
            old(self).ref_count < usize::MAX,
        ensures
            final(self).wf(),
            *final(self) == old(self).with_handle_created(),
            old(self).is_closing ==> final(self).is_closing,
    {
        self.ref_count = self.ref_count + 1;
        proof {
            self.created@ = self.created@ + 1;
        }
    }

    /// Record that one handle was released; returns true when it was the
    /// last live handle, which is the moment a pending close may proceed.
    pub fn handle_released(&mut self) -> (was_last: bool)
        requires
            old(self).wf(),
            old(self).ref_count > 0,
        ensures
            final(self).wf(),
            *final(self) == old(self).with_handle_released(),
            was_last <==> final(self).ref_count == 0,
            old(self).is_closing ==> final(self).is_closing,
    {
        self.ref_count = self.ref_count - 1;
        proof {
            self.released@ = self.released@ + 1;
        }
        self.ref_count == 0
    }

    /// Initiate a close: set the closing flag.  The flag is monotonic; this
    /// is the only transition that touches it, and it only sets it.
    pub fn mark_closing(&mut self)
        requires
            old(self).wf(),
        ensures
            final(self).wf(),
            *final(self) == old(self).with_closing_marked(),
            final(self).is_closing,
    {
        self.is_closing = true;
    }

    /// Read the closing flag.
    pub fn closing(&self) -> (r: bool)
        ensures
            r == self.is_closing,
    {
        self.is_closing
    }

    /// Read the live-reference counter.
    pub fn live_references(&self) -> (r: usize)
        ensures
            r == self.ref_count,
    {
        self.ref_count
    }
}

/// The live-reference counter of a well-formed state is never negative and
/// always equals the number of handle creations minus the number of handle
/// releases observed so far.
pub proof fn lemma_live_count_accounting(s: SharedState)
    requires
        s.wf(),
    ensures
        s.released@ <= s.created@,
        s.ref_count as nat == s.created@ - s.released@,
        s.ref_count >= 0,
{
}

/// Every transition preserves well-formedness, and once the closing flag is
/// true it stays true across every transition.
pub proof fn lemma_closing_is_monotonic(s: SharedState)
    requires
        s.wf(),
    ensures
        s.is_closing ==> s.with_handle_created().is_closing,
        s.is_closing ==> s.with_handle_released().is_closing,
        s.with_closing_marked().is_closing,
        s.ref_count < usize::MAX ==> s.with_handle_created().wf(),
        s.ref_count > 0 ==> s.with_handle_released().wf(),
        s.with_closing_marked().wf(),
{
}

/// One event in a segment's coordination life.
pub enum HandleEvent {
    /// A handle was created.
    Created,
    /// A handle was released.
    Released,
    /// A close was initiated.
    CloseRequested,
}

/// The state after one event.
pub open spec fn apply_event(s: SharedState, ev: HandleEvent) -> SharedState {
    match ev {
        HandleEvent::Created => s.with_handle_created(),
        HandleEvent::Released => s.with_handle_released(),
        HandleEvent::CloseRequested => s.with_closing_marked(),
    }
}

/// Whether the event can occur in the state: a release needs a live
/// handle to release, and the counter cannot exceed the machine word.
pub open spec fn event_allowed(s: SharedState, ev: HandleEvent) -> bool {
    match ev {
        HandleEvent::Created => s.ref_count < usize::MAX,
        HandleEvent::Released => s.ref_count > 0,
        HandleEvent::CloseRequested => true,
    }
}

/// Whether the whole sequence of events can occur, each in the state the
/// ones before it produced.
pub open spec fn events_allowed(s: SharedState, evs: Seq<HandleEvent>) -> bool
    decreases evs.len(),
{
    evs.len() == 0 || (event_allowed(s, evs.first()) && events_allowed(
        apply_event(s, evs.first()),
        evs.drop_first(),
    ))
}

/// The state after a whole sequence of events.
pub open spec fn apply_events(s: SharedState, evs: Seq<HandleEvent>) -> SharedState
    decreases evs.len(),
{
    if evs.len() == 0 {
        s
    } else {
        apply_events(apply_event(s, evs.first()), evs.drop_first())
    }
}

/// Over every allowed sequence of handle creations, handle releases and
/// close requests: the state stays well-formed — so the live counter never
/// goes negative and always equals the creations minus the releases — and
/// the closing flag, once true, remains true for the rest of the
/// segment's life.
pub proof fn lemma_state_machine_invariants(s: SharedState, evs: Seq<HandleEvent>)
    requires
        s.wf(),
        events_allowed(s, evs),
    ensures
        apply_events(s, evs).wf(),
        s.is_closing ==> apply_events(s, evs).is_closing,
    decreases evs.len(),
{
    if evs.len() > 0 {
        lemma_closing_is_monotonic(s);
        lemma_state_machine_invariants(apply_event(s, evs.first()), evs.drop_first());
    }
}

} // verus!
