use vstd::prelude::*;

verus! {

/// The phases of the process: serving, draining the buffer, stopped.
#[derive(Clone, Copy, Debug, PartialEq, Eq, Structural)]
pub enum Phase {
    Running,
    Draining,
    Stopped,
}

/// The termination signals that start a shutdown.
#[derive(Clone, Copy, Debug, PartialEq, Eq, Structural)]
pub enum Signal {
    Terminate,
    Interrupt,
}

/// Tracks the shutdown of the service; the first signal is the only trigger.
pub struct Shutdown {
    pub phase: Phase,
}

impl Shutdown {
    pub fn new() -> (r: Shutdown)
        ensures
            r.phase == Phase::Running,
    {
        Shutdown { phase: Phase::Running }
    }

    /// Whether new work is taken.
    pub fn accepting(&self) -> (r: bool)
        ensures
            r == (self.phase == Phase::Running),
    {
        self.phase == Phase::Running
    }

    /// A termination signal arrived. Returns whether the drain starts now:
    /// only the first signal while running starts it; later ones change
    /// nothing.
    pub fn on_signal(&mut self, sig: Signal) -> (start_drain: bool)
        ensures
            start_drain == (old(self).phase == Phase::Running),
            start_drain ==> final(self).phase == Phase::Draining,
            !start_drain ==> final(self).phase == old(self).phase,
    {
        match sig {
            Signal::Terminate | Signal::Interrupt => {
                if self.phase == Phase::Running {
                    self.phase = Phase::Draining;
                    true
                } else {
                    false
                }
            },
        }
    }

    /// The drain has ended, whatever its outcome: the process stops, for good.
    pub fn drained(&mut self)
        requires
            old(self).phase == Phase::Draining,
        ensures
            final(self).phase == Phase::Stopped,
    {
        self.phase = Phase::Stopped;
    }
}

} // verus!
