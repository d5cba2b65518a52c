//! The engine's life in the process: started once, shut down once.

use vstd::prelude::*;

verus! {

/// Where the engine stands.
#[derive(Debug, Clone, Copy, PartialEq, Eq, Structural)]
pub enum Phase {
    /// Not started yet.
    Cold,
    /// Started: the engine may be called.
    Ready,
    /// Shut down: the engine may not be called any more.
    Closed,
}

/// The record of the engine's life. A process keeps one, behind a lock.
#[derive(Debug)]
pub struct Lifecycle {
    phase: Phase,
}

impl View for Lifecycle {
    type V = Phase;

    closed spec fn view(&self) -> Phase {
        self.phase
    }
}

/// Whether a request for the engine in the phase `phase` has the caller start
/// it.
pub open spec fn starts(phase: Phase) -> bool {
    phase == Phase::Cold
}

/// The phase after a request for the engine in the phase `phase`.
pub open spec fn after_initialize(phase: Phase) -> Phase {
    if phase == Phase::Closed {
        Phase::Closed
    } else {
        Phase::Ready
    }
}

impl Lifecycle {
    /// The record of an engine that was not started yet.
    pub fn new() -> (l: Lifecycle)
        ensures
            l@ == Phase::Cold,
    {
        Lifecycle { phase: Phase::Cold }
    }

    /// Whether the engine may be called.
    pub fn is_ready(&self) -> (b: bool)
        ensures
            b == (self@ == Phase::Ready),
    {
        self.phase == Phase::Ready
    }

    /// Asks for the engine before a call into it. Returns whether the caller
    /// has to start the engine and register its shutdown now: that is so the
    /// first time only, however often this is asked.
    pub fn initialize(&mut self) -> (start: bool)
        ensures
            start == starts(old(self)@),
            final(self)@ == after_initialize(old(self)@),
    {
        match self.phase {
            Phase::Cold => {
                self.phase = Phase::Ready;
                true
            },
            Phase::Ready => false,
            Phase::Closed => false,
        }
    }

    /// Asks to end the engine's life. Returns whether the caller has to shut
    /// the engine down now: that is so once, and only if it was started.
    pub fn shutdown(&mut self) -> (finish: bool)
        ensures
            finish == (old(self)@ == Phase::Ready),
            final(self)@ == Phase::Closed,
    {
        let finish = self.phase == Phase::Ready;
        self.phase = Phase::Closed;
        finish
    }
}

/// Starting is idempotent: after one request for the engine, a further
/// request never asks for a start and leaves the record as it is.
pub proof fn lemma_initialize_once(before: Phase)
    ensures
        !starts(after_initialize(before)),
        after_initialize(after_initialize(before)) == after_initialize(before),
{
}

} // verus!
