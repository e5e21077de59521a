use std::sync::atomic::AtomicU32;
use std::sync::atomic::Ordering;
use std::sync::Arc;
use vstd::prelude::*;

verus! {

/// Whether a termination level still permits another pass of the loop.
pub open spec fn level_permits_looping(level: u32) -> bool {
    level == 0
}

/// Whether a termination level demands that all output stop at once.
pub open spec fn level_demands_stop(level: u32) -> bool {
    level > 1
}

/// Decides from an observed termination level whether looping may go on.
pub fn permits_looping(level: u32) -> (r: bool)
    ensures
        r == level_permits_looping(level),
{
    level == 0
}

/// Decides from an observed termination level whether playback must stop.
pub fn demands_stop(level: u32) -> (r: bool)
    ensures
        r == level_demands_stop(level),
{
    level > 1
}

/// How many interrupts it takes until the process is to exit on the spot.
pub const INTERRUPTS_BEFORE_EXIT: u32 = 5;

/// What one more interrupt leads to.
#[derive(Debug, Clone, Copy, PartialEq, Eq, Structural)]
pub enum Escalation {
    /// The termination level rises to this.
    Level(u32),
    /// The process is to exit on the spot.
    Exit,
}

/// What one more interrupt leads to at a given termination level.
pub open spec fn escalation_from(level: u32) -> Escalation {
    if level + 1 >= INTERRUPTS_BEFORE_EXIT {
        Escalation::Exit
    } else {
        Escalation::Level((level + 1) as u32)
    }
}

/// Decides what one more interrupt leads to. The level only ever rises.
pub fn escalated(level: u32) -> (r: Escalation)
    ensures
        r == escalation_from(level),
        r matches Escalation::Level(next) ==> next > level,
{
    if level >= INTERRUPTS_BEFORE_EXIT - 1 {
        Escalation::Exit
    } else {
        Escalation::Level(level + 1)
    }
}

/// A level that permits looping does not demand a stop, and raising a level
/// never brings back what it has ruled out.
pub proof fn lemma_levels_escalate(level: u32, later: u32)
    requires
        level <= later,
    ensures
        level_demands_stop(level) ==> !level_permits_looping(level),
        !level_permits_looping(level) ==> !level_permits_looping(later),
        level_demands_stop(level) ==> level_demands_stop(later),
{
}

/// A handle on the shared termination level. Clones share one level.
#[derive(Debug, Clone)]
pub struct Terminator {
    ctrlc_count: Arc<AtomicU32>,
}

impl Terminator {
    /// A fresh termination level, at "run normally".
    pub fn new() -> Terminator {
        Terminator { ctrlc_count: Arc::new(AtomicU32::new(0)) }
    }

    /// The level as it stands at the moment of the call.
    pub fn fetch(&self) -> u32 {
        self.ctrlc_count.load(Ordering::Relaxed)
    }

    /// Takes note of one more interrupt. Says whether the process is to
    /// exit on the spot; where it is not, the level has risen by one.
    pub fn interrupt(&self) -> bool {
        match escalated(self.fetch()) {
            Escalation::Level(next) => {
                self.ctrlc_count.store(next, Ordering::Relaxed);
                false
            },
            Escalation::Exit => true,
        }
    }

    /// Whether another pass of the loop is still wanted.
    pub fn should_loop(&self) -> bool {
        permits_looping(self.fetch())
    }

    /// Whether all output is to stop at once.
    pub fn should_terminate(&self) -> bool {
        demands_stop(self.fetch())
    }
}

} // verus!
