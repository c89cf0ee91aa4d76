//! The mutual-exclusion flag that guards a slot or a waited-for condition.

use vstd::prelude::*;
use crate::cpu::Cpu;

verus! {

/// A lock, as the table sees it: taken or free.
///
/// Taking it enters a lock-protected section on the taking core, releasing
/// it leaves one, so a core's nesting depth counts the locks it holds.
#[derive(Clone, Copy, PartialEq, Eq, Structural, Debug)]
pub struct Spinlock {
    pub locked: bool,
}

impl Spinlock {
    /// A free lock.
    pub fn new() -> (lock: Spinlock)
        ensures
            !lock.locked,
    {
        Spinlock { locked: false }
    }

    /// Whether the lock is taken.
    pub fn holding(&self) -> (held: bool)
        ensures
            held == self.locked,
    {
        self.locked
    }

    /// Takes the lock for `cpu` if it is free.
    ///
    /// Returns `false`, with nothing changed, when the lock is already
    /// taken: the caller has to wait and try again.
    pub fn acquire(&mut self, cpu: &mut Cpu) -> (taken: bool)
        requires
            old(cpu).noff < usize::MAX,
        ensures
            taken == !old(self).locked,
            final(self).locked,
            taken ==> *final(cpu) == old(cpu).pushed(),
            !taken ==> *final(cpu) == *old(cpu),
    {
        if self.locked {
            false
        } else {
            cpu.push_off();
            self.locked = true;
            true
        }
    }

    /// Gives the lock up on behalf of `cpu`.
    pub fn release(&mut self, cpu: &mut Cpu)
        requires
            old(self).locked,
            old(cpu).noff >= 1,
        ensures
            !final(self).locked,
            *final(cpu) == old(cpu).popped(),
    {
        self.locked = false;
        cpu.pop_off();
    }
}

} // verus!
