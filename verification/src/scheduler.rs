//! The process table, the scheduler loop of each core and the hand-off
//! between a process and its core's scheduler.

use vstd::prelude::*;
use crate::cpu::{lemma_push_pop_settles, Cpu};
use crate::exclusion::{
    exclusive, lemma_same_process_exclusive, lemma_scheduler_exclusive,
    lemma_scheduler_return_exclusive, lemma_wakeup_exclusive, table_step_keeps_exclusive,
};
use crate::param::{kstack_of, KSTACK_SIZE, NPROC};
use crate::process::Process;
use crate::procstate::Procstate;

verus! {

/// Why a hand-off to the scheduler was refused. Either one means a bug in
/// the calling kernel code, and the kernel must halt.
#[derive(Clone, Copy, PartialEq, Eq, Structural, Debug)]
pub enum SchedFault {
    /// The core does not hold exactly one lock.
    Locks,
    /// Interrupts are enabled.
    Interruptible,
}

/// Permit for one switch away from a kernel thread. It carries the
/// interrupt-enable flag that belongs to that thread, to be put back when
/// the thread runs again.
#[derive(PartialEq, Eq, Structural, Debug)]
pub struct Handoff {
    pub intena: bool,
}

/// What `sched` answers on a core in state `cpu`.
pub open spec fn sched_outcome(cpu: Cpu) -> Result<Handoff, SchedFault> {
    if cpu.noff != 1 {
        Err(SchedFault::Locks)
    } else if cpu.interrupts {
        Err(SchedFault::Interruptible)
    } else {
        Ok(Handoff { intena: cpu.intena })
    }
}

/// Checks that the calling thread may switch to its core's scheduler, and
/// takes the thread's interrupt-enable flag along.
///
/// On `Ok` the caller switches from the thread's save area to the core's,
/// and calls `sched_return` with the permit once the thread runs again.
pub fn sched(cpu: &Cpu) -> (permit: Result<Handoff, SchedFault>)
    ensures
        permit == sched_outcome(*cpu),
{
    if cpu.noff != 1 {
        Err(SchedFault::Locks)
    } else if cpu.interrupts {
        Err(SchedFault::Interruptible)
    } else {
        Ok(Handoff { intena: cpu.intena })
    }
}

/// Completes a hand-off after the thread has been switched back in: the
/// core it now runs on gets the thread's interrupt-enable flag.
pub fn sched_return(cpu: &mut Cpu, permit: Handoff)
    ensures
        *final(cpu) == (Cpu { intena: permit.intena, ..*old(cpu) }),
{
    cpu.intena = permit.intena;
}

/// A thread that switches away and is later switched back in, on the same
/// core or another, finds the interrupt-enable flag it left with.
pub proof fn lemma_sched_keeps_intena(before: Cpu, after: Cpu)
    requires
        before.noff == 1,
        !before.interrupts,
    ensures
        sched_outcome(before) is Ok,
        (Cpu { intena: sched_outcome(before)->Ok_0.intena, ..after }).intena == before.intena,
{
}

/// The process table: a fixed row of slots, made once when the kernel comes
/// up. A process is known by the position of its slot.
pub struct ProcManager {
    proc: Vec<Process>,
}

impl View for ProcManager {
    type V = Seq<Process>;

    closed spec fn view(&self) -> Seq<Process> {
        self.proc@
    }
}

/// What the scheduler loop of a core does next.
#[derive(Clone, Copy, PartialEq, Eq, Structural, Debug)]
pub enum SchedulerAction {
    /// Switch from the core's save area to that of the process in this
    /// slot. When the process has given the core back, call
    /// `scheduler_return` and go on behind the slot.
    Run(usize),
    /// The lock of this slot is held elsewhere: try again from this slot.
    Wait(usize),
    /// The pass reached the end of the table: start the next one at the
    /// first slot.
    Idle,
}

/// Whether the scheduler loop looks at the slot and goes on: its lock is
/// free and its process is not waiting for a core.
pub open spec fn passed_over(slot: Process) -> bool {
    !slot.lock.locked && slot.data.state != Procstate::RUNNABLE
}

/// The core as a scheduler pass finds it when it sets out at `from`: a
/// pass that starts at the first slot turns interrupts on, so that devices
/// can interrupt a core that finds nothing to run.
pub open spec fn pass_entry(cpu: Cpu, from: usize) -> Cpu {
    if from == 0 {
        Cpu { interrupts: true, ..cpu }
    } else {
        cpu
    }
}

/// The core after it has taken and let go of the locks of `examined`
/// slots in a row.
pub open spec fn after_examining(cpu: Cpu, examined: int) -> Cpu {
    if examined > 0 {
        cpu.pushed().popped()
    } else {
        cpu
    }
}

impl ProcManager {
    /// A table of `NPROC` free slots.
    pub fn new() -> (procs: ProcManager)
        ensures
            procs@ == Seq::new(NPROC as nat, |i: int| Process::unused()),
    {
        ProcManager::with_slots(NPROC)
    }

    /// A table of `slots` free slots.
    pub fn with_slots(slots: usize) -> (procs: ProcManager)
        ensures
            procs@ == Seq::new(slots as nat, |i: int| Process::unused()),
    {
        let mut proc: Vec<Process> = Vec::new();
        let mut made: usize = 0;
        while made < slots
            invariant
                made <= slots,
                proc@ == Seq::new(made as nat, |i: int| Process::unused()),
            decreases slots - made,
        {
            proc.push(Process::new());
            made = made + 1;
        }
        ProcManager { proc }
    }

    /// Number of slots.
    pub fn len(&self) -> (slots: usize)
        ensures
            slots == self@.len(),
    {
        self.proc.len()
    }

    /// The slot at position `index`.
    pub fn slot(&self, index: usize) -> (slot: &Process)
        requires
            index < self@.len(),
        ensures
            *slot == self@[index as int],
    {
        &self.proc[index]
    }

    /// The slots of the table, to work on them in place.
    pub fn get_table_mut(&mut self) -> (table: &mut [Process])
        ensures
            table@ == old(self)@,
            final(self)@ == final(table)@,
    {
        self.proc.as_mut_slice()
    }

    /// Gives every slot its kernel stack: the slot at position `i` gets
    /// the address `i * KSTACK_SIZE`. Each slot is written under its own
    /// lock, taken and let go by `cpu`. Nothing else in the table changes.
    ///
    /// This runs once, on one core, before any core starts to schedule, so
    /// no lock of the table is held.
    pub fn procinit(&mut self, cpu: &mut Cpu)
        requires
            old(self)@.len() * KSTACK_SIZE <= usize::MAX,
            forall|i: int| 0 <= i < old(self)@.len() ==> !(#[trigger] old(self)@[i]).lock.locked,
            old(cpu).noff < usize::MAX,
        ensures
            final(self)@.len() == old(self)@.len(),
            forall|i: int|
                0 <= i < old(self)@.len() ==> #[trigger] final(self)@[i] == old(self)@[i].with_kstack(
                    kstack_of(i) as usize,
                ),
            *final(cpu) == after_examining(*old(cpu), old(self)@.len() as int),
    {
        let slots = self.proc.len();
        let mut index: usize = 0;
        while index < slots
            invariant
                index <= slots,
                slots == old(self)@.len(),
                slots * KSTACK_SIZE <= usize::MAX,
                self.proc@.len() == slots,
                old(cpu).noff < usize::MAX,
                *cpu == after_examining(*old(cpu), index as int),
                forall|i: int| 0 <= i < slots ==> !(#[trigger] old(self)@[i]).lock.locked,
                forall|i: int|
                    0 <= i < index ==> #[trigger] self.proc@[i] == old(self)@[i].with_kstack(
                        kstack_of(i) as usize,
                    ),
                forall|i: int| index <= i < slots ==> #[trigger] self.proc@[i] == old(self)@[i],
            decreases slots - index,
        {
            proof {
                lemma_push_pop_settles(*old(cpu));
            }
            assert(index * KSTACK_SIZE <= slots * KSTACK_SIZE) by (nonlinear_arith)
                requires
                    index < slots,
            ;
            self.proc[index].lock.acquire(cpu);
            self.proc[index].data.set_kstack(index * KSTACK_SIZE);
            self.proc[index].lock.release(cpu);
            index = index + 1;
        }
    }
}

/// One stretch of the scheduler loop of the core `cpu`: goes through the
/// slots from position `from` on, in table order, until it finds a process
/// to run or the table ends.
///
/// A pass that starts at the first slot turns interrupts on first. For
/// each slot the loop takes the lock, and if the process is `RUNNABLE` it
/// marks it `RUNNING`, records it as the process of this core and answers
/// `Run`, with the lock still held: the process lets go of it once it
/// runs. Otherwise it lets go of the lock and goes on. A slot whose lock
/// is held elsewhere stops the stretch with `Wait`.
///
/// The loop of a core never ends: the caller performs the action and calls
/// again, as the action says.
pub fn scheduler(procs: &mut ProcManager, cpu: &mut Cpu, from: usize) -> (action: SchedulerAction)
    requires
        old(cpu).noff < usize::MAX,
    ensures
        final(procs)@.len() == old(procs)@.len(),
        match action {
            SchedulerAction::Run(i) => {
                &&& from <= i < old(procs)@.len()
                &&& forall|k: int| from <= k < i ==> passed_over(#[trigger] old(procs)@[k])
                &&& !old(procs)@[i as int].lock.locked
                &&& old(procs)@[i as int].data.state == Procstate::RUNNABLE
                &&& final(procs)@ == old(procs)@.update(i as int, old(procs)@[i as int].picked())
                &&& *final(cpu) == (Cpu {
                    proc: Some(i),
                    ..pass_entry(*old(cpu), from).pushed()
                })
            },
            SchedulerAction::Wait(i) => {
                &&& from <= i < old(procs)@.len()
                &&& forall|k: int| from <= k < i ==> passed_over(#[trigger] old(procs)@[k])
                &&& old(procs)@[i as int].lock.locked
                &&& final(procs)@ == old(procs)@
                &&& *final(cpu) == after_examining(pass_entry(*old(cpu), from), i - from)
            },
            SchedulerAction::Idle => {
                &&& forall|k: int|
                    from <= k < old(procs)@.len() ==> passed_over(#[trigger] old(procs)@[k])
                &&& final(procs)@ == old(procs)@
                &&& *final(cpu) == after_examining(
                    pass_entry(*old(cpu), from),
                    old(procs)@.len() - from,
                )
            },
        },
        table_step_keeps_exclusive(old(procs)@, final(procs)@, *old(cpu), *final(cpu)),
{
    proof {
        lemma_push_pop_settles(pass_entry(*old(cpu), from));
    }
    if from == 0 {
        // Make sure that devices can interrupt a core that has nothing to
        // run.
        cpu.intr_on();
    }
    let slots = procs.proc.len();
    let mut index = from;
    while index < slots
        invariant
            from <= index,
            index <= slots || index == from,
            slots == old(procs)@.len(),
            procs.proc@ == old(procs)@,
            old(cpu).noff < usize::MAX,
            *cpu == after_examining(pass_entry(*old(cpu), from), index - from),
            forall|k: int| from <= k < index ==> passed_over(#[trigger] old(procs)@[k]),
        decreases slots - index,
    {
        proof {
            lemma_push_pop_settles(pass_entry(*old(cpu), from));
        }
        let taken = procs.proc[index].lock.acquire(cpu);
        if !taken {
            proof {
                assert forall|cpus: Seq<Cpu>, c: int|
                    exclusive(old(procs)@, cpus) && 0 <= c < cpus.len() && cpus[c] == *old(
                        cpu,
                    ) implies #[trigger] exclusive(procs@, cpus.update(c, *cpu)) by {
                    lemma_same_process_exclusive(old(procs)@, cpus, c, *cpu);
                }
            }
            return SchedulerAction::Wait(index);
        }
        if procs.proc[index].data.state == Procstate::RUNNABLE {
            // The process lets go of the lock once it runs, and takes it
            // again before it switches back.
            procs.proc[index].data.set_state(Procstate::RUNNING);
            cpu.set_proc(Some(index));
            proof {
                assert(procs.proc@ =~= old(procs)@.update(
                    index as int,
                    old(procs)@[index as int].picked(),
                ));
                assert forall|cpus: Seq<Cpu>, c: int|
                    exclusive(old(procs)@, cpus) && 0 <= c < cpus.len() && cpus[c] == *old(
                        cpu,
                    ) implies #[trigger] exclusive(procs@, cpus.update(c, *cpu)) by {
                    lemma_scheduler_exclusive(old(procs)@, cpus, c, index, *cpu);
                }
            }
            return SchedulerAction::Run(index);
        }
        procs.proc[index].lock.release(cpu);
        assert(procs.proc@ =~= old(procs)@);
        index = index + 1;
    }
    proof {
        assert forall|cpus: Seq<Cpu>, c: int|
            exclusive(old(procs)@, cpus) && 0 <= c < cpus.len() && cpus[c] == *old(
                cpu,
            ) implies #[trigger] exclusive(procs@, cpus.update(c, *cpu)) by {
            lemma_same_process_exclusive(old(procs)@, cpus, c, *cpu);
        }
    }
    SchedulerAction::Idle
}

/// The scheduler loop of `cpu` gets the core back from the process it
/// switched to: the core has no process any more, and the lock that the
/// process took before it switched is let go.
///
/// Returns the position at which the loop goes on: the slot behind that of
/// the process.
pub fn scheduler_return(procs: &mut ProcManager, cpu: &mut Cpu) -> (next: usize)
    requires
        old(cpu).proc is Some,
        old(cpu).proc->Some_0 < old(procs)@.len(),
        old(procs)@[old(cpu).proc->Some_0 as int].lock.locked,
        old(cpu).noff >= 1,
    ensures
        next == old(cpu).proc->Some_0 + 1,
        final(procs)@ == old(procs)@.update(
            next - 1,
            old(procs)@[next - 1].unlocked(),
        ),
        *final(cpu) == (Cpu { proc: None, ..*old(cpu) }).popped(),
        table_step_keeps_exclusive(old(procs)@, final(procs)@, *old(cpu), *final(cpu)),
{
    let slots = procs.proc.len();
    let index = match cpu.proc {
        Some(index) => index,
        None => 0,
    };
    // The process is done running for now. It has changed its state
    // before it came back.
    cpu.set_proc(None);
    procs.proc[index].lock.release(cpu);
    proof {
        assert(procs.proc@ =~= old(procs)@.update(
            index as int,
            old(procs)@[index as int].unlocked(),
        ));
        assert forall|cpus: Seq<Cpu>, c: int|
            exclusive(old(procs)@, cpus) && 0 <= c < cpus.len() && cpus[c] == *old(
                cpu,
            ) implies #[trigger] exclusive(procs@, cpus.update(c, *cpu)) by {
            lemma_scheduler_return_exclusive(old(procs)@, cpus, c, index, *cpu);
        }
    }
    index + 1
}

impl ProcManager {
    /// One stretch of a wakeup on `channel`, run by `cpu`: goes through
    /// the slots from position `from` on and makes every process that
    /// sleeps on `channel` `RUNNABLE`. Each slot is looked at under its
    /// lock.
    ///
    /// A slot whose lock is held elsewhere stops the stretch: its position
    /// is returned, and the caller tries again from there. `None` means
    /// that the end of the table was reached.
    pub fn wakeup(&mut self, channel: usize, from: usize, cpu: &mut Cpu) -> (blocked: Option<usize>)
        requires
            old(cpu).noff < usize::MAX,
        ensures
            final(self)@.len() == old(self)@.len(),
            blocked matches Some(i) ==> from <= i < old(self)@.len() && old(self)@[i as int].lock.locked,
            forall|k: int|
                from <= k < wakeup_end(old(self)@, blocked) ==> !(#[trigger] old(self)@[k]).lock.locked,
            forall|k: int|
                0 <= k < old(self)@.len() ==> #[trigger] final(self)@[k] == if from <= k
                    < wakeup_end(old(self)@, blocked) {
                    old(self)@[k].woken(channel)
                } else {
                    old(self)@[k]
                },
            *final(cpu) == after_examining(*old(cpu), wakeup_end(old(self)@, blocked) - from),
            table_step_keeps_exclusive(old(self)@, final(self)@, *old(cpu), *final(cpu)),
    {
        let slots = self.proc.len();
        let mut index = from;
        while index < slots
            invariant
                from <= index,
                index <= slots || index == from,
                slots == old(self)@.len(),
                self.proc@.len() == slots,
                old(cpu).noff < usize::MAX,
                *cpu == after_examining(*old(cpu), index - from),
                forall|k: int| from <= k < index ==> !(#[trigger] old(self)@[k]).lock.locked,
                forall|k: int|
                    0 <= k < slots ==> #[trigger] self.proc@[k] == if from <= k < index {
                        old(self)@[k].woken(channel)
                    } else {
                        old(self)@[k]
                    },
            decreases slots - index,
        {
            proof {
                lemma_push_pop_settles(*old(cpu));
            }
            let taken = self.proc[index].lock.acquire(cpu);
            if !taken {
                proof {
                    assert forall|cpus: Seq<Cpu>, c: int|
                        exclusive(old(self)@, cpus) && 0 <= c < cpus.len() && cpus[c] == *old(
                            cpu,
                        ) implies #[trigger] exclusive(self@, cpus.update(c, *cpu)) by {
                        lemma_wakeup_exclusive(old(self)@, cpus, c, channel, self@, *cpu);
                    }
                }
                return Some(index);
            }
            if self.proc[index].data.state == Procstate::SLEEPING && self.proc[index].data.channel
                == channel {
                self.proc[index].data.set_state(Procstate::RUNNABLE);
            }
            self.proc[index].lock.release(cpu);
            index = index + 1;
        }
        proof {
            assert forall|cpus: Seq<Cpu>, c: int|
                exclusive(old(self)@, cpus) && 0 <= c < cpus.len() && cpus[c] == *old(
                    cpu,
                ) implies #[trigger] exclusive(self@, cpus.update(c, *cpu)) by {
                lemma_wakeup_exclusive(old(self)@, cpus, c, channel, self@, *cpu);
            }
        }
        None
    }
}

/// Where a stretch of a wakeup ended: at the slot that blocked it, or at
/// the end of the table.
pub open spec fn wakeup_end(table: Seq<Process>, blocked: Option<usize>) -> int {
    match blocked {
        Some(i) => i as int,
        None => table.len() as int,
    }
}

} // verus!
