//! The state that each core keeps for itself.

use vstd::prelude::*;
use crate::context::Context;

verus! {

/// One core's private state.
///
/// `interrupts` mirrors the core's interrupt-enable bit. `noff` counts the
/// locks the core holds; `intena` remembers whether interrupts were enabled
/// when the first of them was taken.
#[derive(Clone, Copy, PartialEq, Eq, Structural, Debug)]
pub struct Cpu {
    /// Table position of the process this core is running, if any.
    pub proc: Option<usize>,
    /// Save area of the core's scheduler thread.
    pub context: Context,
    /// Depth of lock nesting on this core.
    pub noff: usize,
    /// Whether interrupts were enabled before the outermost lock was taken.
    pub intena: bool,
    /// Whether interrupts are enabled right now.
    pub interrupts: bool,
}

impl Cpu {
    /// The state of a core that has just come up: no process, no lock held,
    /// interrupts disabled.
    pub open spec fn idle() -> Cpu {
        Cpu { proc: None, context: Context::zeroed(), noff: 0, intena: false, interrupts: false }
    }

    /// The core after it has entered one more lock-protected section:
    /// interrupts are off, and the outermost entry records whether they were
    /// on.
    pub open spec fn pushed(self) -> Cpu {
        Cpu {
            noff: (self.noff + 1) as usize,
            intena: if self.noff == 0 {
                self.interrupts
            } else {
                self.intena
            },
            interrupts: false,
            ..self
        }
    }

    /// The core after it has left one lock-protected section: leaving the
    /// outermost one turns interrupts back on if they were on at entry.
    pub open spec fn popped(self) -> Cpu {
        Cpu {
            noff: (self.noff - 1) as usize,
            interrupts: if self.noff == 1 && self.intena {
                true
            } else {
                self.interrupts
            },
            ..self
        }
    }

    /// A core that has just come up.
    pub fn new() -> (cpu: Cpu)
        ensures
            cpu == Cpu::idle(),
    {
        Cpu { proc: None, context: Context::new(), noff: 0, intena: false, interrupts: false }
    }

    /// Records which process this core is running.
    pub fn set_proc(&mut self, proc: Option<usize>)
        ensures
            *final(self) == (Cpu { proc, ..*old(self) }),
    {
        self.proc = proc;
    }

    /// The save area of this core's scheduler thread.
    pub fn get_context_mut(&mut self) -> (ctx: &mut Context)
        ensures
            *ctx == old(self).context,
            *final(self) == (Cpu { context: *final(ctx), ..*old(self) }),
    {
        &mut self.context
    }

    /// Whether interrupts are enabled on this core.
    pub fn intr_get(&self) -> (enabled: bool)
        ensures
            enabled == self.interrupts,
    {
        self.interrupts
    }

    /// Enables interrupts on this core.
    pub fn intr_on(&mut self)
        ensures
            *final(self) == (Cpu { interrupts: true, ..*old(self) }),
    {
        self.interrupts = true;
    }

    /// Disables interrupts on this core.
    pub fn intr_off(&mut self)
        ensures
            *final(self) == (Cpu { interrupts: false, ..*old(self) }),
    {
        self.interrupts = false;
    }

    /// Enters a lock-protected section.
    pub fn push_off(&mut self)
        requires
            old(self).noff < usize::MAX,
        ensures
            *final(self) == old(self).pushed(),
    {
        if self.noff == 0 {
            self.intena = self.interrupts;
        }
        self.interrupts = false;
        self.noff = self.noff + 1;
    }

    /// Leaves a lock-protected section.
    pub fn pop_off(&mut self)
        requires
            old(self).noff >= 1,
        ensures
            *final(self) == old(self).popped(),
    {
        self.noff = self.noff - 1;
        if self.noff == 0 && self.intena {
            self.interrupts = true;
        }
    }
}

/// Taking and letting go of a lock leaves a core as one such round before
/// had left it, and does not change what taking a lock makes of it.
pub proof fn lemma_push_pop_settles(cpu: Cpu)
    requires
        cpu.noff < usize::MAX,
    ensures
        cpu.pushed().popped().pushed() == cpu.pushed(),
        cpu.pushed().popped().pushed().popped() == cpu.pushed().popped(),
        cpu.pushed().popped().noff == cpu.noff,
{
}

} // verus!
