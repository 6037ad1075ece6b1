use vstd::prelude::*;

verus! {

/// What the background flush loop reports to the scheduler.
#[derive(Clone, Copy, Debug, PartialEq, Eq, Structural)]
pub enum FlushEvent {
    /// The polling interval has elapsed.
    Tick,
    /// The durability flush that was asked for completed.
    Flushed,
    /// The durability flush that was asked for failed.
    FlushFailed,
}

/// What the background flush loop does next.
#[derive(Clone, Copy, Debug, PartialEq, Eq, Structural)]
pub enum FlushAction {
    /// Wait for the next interval.
    Wait,
    /// Flush the store to durable storage, then report how it went.
    Flush,
}

/// The dirty flag together with whether a flush is under way. Every pair of
/// values is a valid state.
#[derive(Clone, Copy, Debug, PartialEq, Eq, Structural)]
pub struct FlushState {
    /// Some mutation has not been handed to a flush yet.
    pub dirty: bool,
    /// A flush has been asked for and has not been reported back.
    pub flushing: bool,
}

/// The state after a mutation.
pub open spec fn marked(s: FlushState) -> FlushState {
    FlushState { dirty: true, flushing: s.flushing }
}

/// Test-and-clear: the state afterwards and whether the flag was set.
pub open spec fn taken(s: FlushState) -> (FlushState, bool) {
    (FlushState { dirty: false, flushing: s.flushing }, s.dirty)
}

/// One step of the flush loop: the next state and the action to perform.
pub open spec fn stepped(s: FlushState, e: FlushEvent) -> (FlushState, FlushAction) {
    match e {
        FlushEvent::Tick => if !s.flushing && s.dirty {
            (FlushState { dirty: false, flushing: true }, FlushAction::Flush)
        } else {
            (s, FlushAction::Wait)
        },
        FlushEvent::Flushed => (FlushState { dirty: s.dirty, flushing: false }, FlushAction::Wait),
        FlushEvent::FlushFailed => if s.flushing {
            (FlushState { dirty: true, flushing: false }, FlushAction::Wait)
        } else {
            (s, FlushAction::Wait)
        },
    }
}

impl FlushState {
    /// Clean and idle, as at process start.
    pub fn new() -> (r: FlushState)
        ensures
            !r.dirty,
            !r.flushing,
    {
        FlushState { dirty: false, flushing: false }
    }

    /// Records that a mutation is waiting for a flush.
    pub fn mark_dirty(&mut self)
        ensures
            *final(self) == marked(*old(self)),
    {
        self.dirty = true;
    }

    /// Clears the flag and says whether it was set.
    pub fn take_if_dirty(&mut self) -> (r: bool)
        ensures
            (*final(self), r) == taken(*old(self)),
    {
        let was = self.dirty;
        self.dirty = false;
        was
    }

    /// Advances the flush loop by one event. A tick starts a flush only when
    /// none is under way and the flag was set, clearing it; a failed flush
    /// sets the flag again so that the next tick retries.
    pub fn step(&mut self, e: FlushEvent) -> (r: FlushAction)
        ensures
            (*final(self), r) == stepped(*old(self), e),
    {
        match e {
            FlushEvent::Tick => {
                if !self.flushing && self.take_if_dirty() {
                    self.flushing = true;
                    FlushAction::Flush
                } else {
                    FlushAction::Wait
                }
            },
            FlushEvent::Flushed => {
                self.flushing = false;
                FlushAction::Wait
            },
            FlushEvent::FlushFailed => {
                if self.flushing {
                    self.flushing = false;
                    self.mark_dirty();
                }
                FlushAction::Wait
            },
        }
    }
}

} // verus!
