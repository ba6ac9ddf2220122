use vstd::prelude::*;

verus! {

/// The two states of the shutdown coordinator.
#[derive(Clone, Copy, PartialEq, Eq, Structural, Debug)]
pub enum ShutdownState {
    Running,
    StopRequested,
}

/// One-shot cooperative cancellation token. The controller side requests
/// the stop at most once; the capture loop polls for it, without
/// blocking, once per iteration. Absence of a received request is the
/// loop's sole continuation condition.
pub struct ShutdownSignal {
    state: ShutdownState,
}

impl ShutdownSignal {
    /// Whether the stop has been requested.
    pub closed spec fn requested(self) -> bool {
        self.state == ShutdownState::StopRequested
    }

    /// A fresh signal: no stop requested yet.
    pub fn new() -> (r: ShutdownSignal)
        ensures
            !r.requested(),
    {
        ShutdownSignal { state: ShutdownState::Running }
    }

    /// The single `Running -> StopRequested` transition. It fires exactly
    /// once: a second request is ruled out by the precondition.
    pub fn request(&mut self)
        requires
            !old(self).requested(),
        ensures
            final(self).requested(),
    {
        self.state = ShutdownState::StopRequested;
    }

    /// Non-blocking poll, the capture loop's once-per-iteration check.
    pub fn poll(&self) -> (r: bool)
        ensures
            r == self.requested(),
    {
        match self.state {
            ShutdownState::StopRequested => true,
            ShutdownState::Running => false,
        }
    }
}

} // verus!
