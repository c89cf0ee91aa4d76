//! The life cycle of a process-table slot.

use vstd::prelude::*;

verus! {

/// Where a slot stands in its life cycle.
///
/// The states carry no order. A slot moves from one to another only by an
/// explicit assignment made while the slot's lock is held.
#[derive(Clone, Copy, PartialEq, Eq, Structural, Debug)]
pub enum Procstate {
    UNUSED,
    USED,
    SLEEPING,
    RUNNABLE,
    RUNNING,
    ZOMBIE,
    ALLOCATED,
}

/// The moves a slot may make.
///
/// | from                  | to                  | made by                    |
/// |-----------------------|---------------------|----------------------------|
/// | `UNUSED`              | `USED`, `ALLOCATED` | process creation           |
/// | `ALLOCATED`,`RUNNABLE`| `RUNNING`           | the scheduler loop         |
/// | `RUNNING`             | `RUNNABLE`          | `Process::yielding`        |
/// | `RUNNING`             | `SLEEPING`          | `Process::sleep`           |
/// | `SLEEPING`            | `RUNNABLE`          | a wakeup                   |
/// | `RUNNING`             | `ZOMBIE`            | process exit               |
/// | `ZOMBIE`              | `UNUSED`            | `ProcData::freeproc`       |
pub open spec fn transition_allowed(from: Procstate, to: Procstate) -> bool {
    match from {
        Procstate::UNUSED => to == Procstate::USED || to == Procstate::ALLOCATED,
        Procstate::USED => false,
        Procstate::ALLOCATED => to == Procstate::RUNNING,
        Procstate::RUNNABLE => to == Procstate::RUNNING,
        Procstate::RUNNING => to == Procstate::RUNNABLE || to == Procstate::SLEEPING || to
            == Procstate::ZOMBIE,
        Procstate::SLEEPING => to == Procstate::RUNNABLE,
        Procstate::ZOMBIE => to == Procstate::UNUSED,
    }
}

impl Procstate {
    /// Whether a slot in this state may move to `next`.
    pub fn can_become(self, next: Procstate) -> (allowed: bool)
        ensures
            allowed == transition_allowed(self, next),
    {
        match self {
            Procstate::UNUSED => next == Procstate::USED || next == Procstate::ALLOCATED,
            Procstate::USED => false,
            Procstate::ALLOCATED => next == Procstate::RUNNING,
            Procstate::RUNNABLE => next == Procstate::RUNNING,
            Procstate::RUNNING => next == Procstate::RUNNABLE || next == Procstate::SLEEPING
                || next == Procstate::ZOMBIE,
            Procstate::SLEEPING => next == Procstate::RUNNABLE,
            Procstate::ZOMBIE => next == Procstate::UNUSED,
        }
    }
}

} // verus!
