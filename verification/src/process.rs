//! Process descriptors: the lock-protected data of one process, and what the
//! kernel does to it over the process's life.

use vstd::prelude::*;
use crate::context::Context;
use crate::cpu::Cpu;
use crate::exclusion::{
    exclusive, lemma_parking_exclusive, lemma_resuming_exclusive, slot_step_keeps_exclusive,
};
use crate::param::{PGSIZE, TRAMPOLINE, TRAPFRAME};
use crate::procstate::{transition_allowed, Procstate};
use crate::scheduler::{sched, sched_outcome, sched_return, Handoff, SchedFault};
use crate::spinlock::Spinlock;

verus! {

/// Handle to a user address space: the address of its root page-table page.
///
/// A handle cannot be copied: whoever holds it owns the address space.
#[derive(PartialEq, Eq, Structural, Debug)]
pub struct PageTable {
    pub root: usize,
}

/// Access rights of a mapping.
#[derive(Clone, Copy, PartialEq, Eq, Structural, Debug)]
pub struct Permissions {
    pub read: bool,
    pub write: bool,
    pub execute: bool,
    pub user: bool,
}

/// The two pages that every user address space holds from the start.
#[derive(Clone, Copy, PartialEq, Eq, Structural, Debug)]
pub enum Region {
    /// The trap entry and exit code, shared by all address spaces.
    Trampoline,
    /// The page that holds the process's saved user registers.
    Trapframe,
}

/// A request to map `len` bytes at virtual address `va` to physical address
/// `pa`.
#[derive(Clone, Copy, PartialEq, Eq, Structural, Debug)]
pub struct Mapping {
    pub region: Region,
    pub va: u64,
    pub pa: u64,
    pub len: u64,
    pub perm: Permissions,
}

/// What the address-space component reported back to `proc_pagetable`.
#[derive(PartialEq, Eq, Debug)]
pub enum PagetableEvent {
    /// Nothing yet: the construction starts.
    Begin,
    /// An empty address space was asked for; `None` if there was no memory.
    Created(Option<PageTable>),
    /// The mapping of the named region into the table succeeded or failed.
    Mapped(PageTable, Region, bool),
    /// The address space handed out for freeing is gone.
    Freed,
}

/// What `proc_pagetable` asks its caller to do next.
#[derive(PartialEq, Eq, Debug)]
pub enum PagetableAction {
    /// Create an empty address space and report `Created`.
    Create,
    /// Install the mapping in the table and report `Mapped` with the
    /// mapping's region.
    MapRegion(PageTable, Mapping),
    /// Free the table, which maps this many bytes of user memory, and report
    /// `Freed`.
    Free(PageTable, usize),
    /// The construction is over: the new address space, or `None` if it
    /// could not be built.
    Return(Option<PageTable>),
}

/// What the address-space component is asked to do for `growproc`.
#[derive(Clone, Copy, PartialEq, Eq, Structural, Debug)]
pub enum Resize {
    /// Nothing.
    Unchanged,
    /// Extend the mapped memory from `old_size` to `new_size` bytes. This
    /// may fail.
    Grow { old_size: usize, new_size: usize },
    /// Cut the mapped memory down from `old_size` to `new_size` bytes. This
    /// cannot fail.
    Shrink { old_size: usize, new_size: usize },
}

/// What `freeproc` took out of a descriptor, for the caller to give back.
#[derive(PartialEq, Eq, Debug)]
pub struct Released {
    /// The trapframe page, to go back to the page allocator.
    pub trapframe: Option<usize>,
    /// The address space, to be torn down.
    pub pagetable: Option<PageTable>,
    /// Bytes of user memory mapped in that address space.
    pub size: usize,
}

/// The fields of a process that its lock protects.
#[derive(PartialEq, Eq, Debug)]
pub struct ProcData {
    pub state: Procstate,
    /// What the process sleeps on; zero when it is not sleeping.
    pub channel: usize,
    /// Nonzero once the process has been marked for termination.
    pub killed: usize,
    /// Exit status, meaningful once the state is `ZOMBIE`.
    pub xstate: usize,
    /// Process identifier; zero for a free slot.
    pub pid: usize,
    /// Table position of the parent. It is a back reference only and is
    /// guarded by the lock of the process tree, not by the slot's lock.
    pub parent: Option<usize>,
    /// Virtual address of the kernel stack.
    pub kstack: usize,
    /// Bytes of user memory.
    pub size: usize,
    /// The user address space.
    pub pagetable: Option<PageTable>,
    /// Address of the trapframe page; zero if there is none.
    pub trapframe: usize,
    /// Saved registers of the process's kernel thread.
    pub context: Context,
}

/// Permissions of the trampoline page: readable and executable by the
/// kernel, invisible to user code.
pub open spec fn trampoline_perm() -> Permissions {
    Permissions { read: true, write: false, execute: true, user: false }
}

/// Permissions of the trapframe page. It is mapped like the trampoline page;
/// a kernel whose trap path writes the page through this mapping has to
/// widen them here.
pub open spec fn trapframe_perm() -> Permissions {
    Permissions { read: true, write: false, execute: true, user: false }
}

/// The mapping of the trampoline code, which lies at physical address
/// `trampoline`.
pub open spec fn trampoline_mapping(trampoline: usize) -> Mapping {
    Mapping {
        region: Region::Trampoline,
        va: TRAMPOLINE,
        pa: trampoline as u64,
        len: PGSIZE,
        perm: trampoline_perm(),
    }
}

/// The mapping of the trapframe page at physical address `trapframe`.
pub open spec fn trapframe_mapping(trapframe: usize) -> Mapping {
    Mapping {
        region: Region::Trapframe,
        va: TRAPFRAME,
        pa: trapframe as u64,
        len: PGSIZE,
        perm: trapframe_perm(),
    }
}

/// The next action of the address-space construction for a process whose
/// trapframe page is at `trapframe`, after `event`.
pub open spec fn pagetable_step(
    trapframe: usize,
    trampoline: usize,
    event: PagetableEvent,
) -> PagetableAction {
    match event {
        PagetableEvent::Begin => PagetableAction::Create,
        PagetableEvent::Created(None) => PagetableAction::Return(None),
        PagetableEvent::Created(Some(table)) => PagetableAction::MapRegion(
            table,
            trampoline_mapping(trampoline),
        ),
        PagetableEvent::Mapped(table, Region::Trampoline, true) => PagetableAction::MapRegion(
            table,
            trapframe_mapping(trapframe),
        ),
        PagetableEvent::Mapped(table, Region::Trapframe, true) => PagetableAction::Return(
            Some(table),
        ),
        PagetableEvent::Mapped(table, _, false) => PagetableAction::Free(table, 0),
        PagetableEvent::Freed => PagetableAction::Return(None),
    }
}

/// The request that changes `size` bytes of user memory by `n` bytes.
pub open spec fn resize_for(size: usize, n: isize) -> Resize {
    if n > 0 {
        Resize::Grow { old_size: size, new_size: (size + n) as usize }
    } else if n < 0 {
        Resize::Shrink { old_size: size, new_size: (size + n) as usize }
    } else {
        Resize::Unchanged
    }
}

impl ProcData {
    /// The data of a slot that has never been used.
    pub open spec fn fresh() -> ProcData {
        ProcData {
            state: Procstate::UNUSED,
            channel: 0,
            killed: 0,
            xstate: 0,
            pid: 0,
            parent: None,
            kstack: 0,
            size: 0,
            pagetable: None,
            trapframe: 0,
            context: Context::zeroed(),
        }
    }

    /// The data of a slot that has never been used.
    pub fn new() -> (data: ProcData)
        ensures
            data == ProcData::fresh(),
    {
        ProcData {
            state: Procstate::UNUSED,
            channel: 0,
            killed: 0,
            xstate: 0,
            pid: 0,
            parent: None,
            kstack: 0,
            size: 0,
            pagetable: None,
            trapframe: 0,
            context: Context::new(),
        }
    }

    /// Sets the address of the kernel stack. The table does this once for
    /// every slot, when it is set up.
    pub fn set_kstack(&mut self, kstack: usize)
        ensures
            *final(self) == (ProcData { kstack, ..*old(self) }),
    {
        self.kstack = kstack;
    }

    /// Sets the address of the trapframe page; zero for none.
    pub fn set_trapframe(&mut self, trapframe: usize)
        ensures
            *final(self) == (ProcData { trapframe, ..*old(self) }),
    {
        self.trapframe = trapframe;
    }

    /// Puts the slot in `state`, whatever state it was in.
    pub fn set_state(&mut self, state: Procstate)
        ensures
            *final(self) == (ProcData { state, ..*old(self) }),
    {
        self.state = state;
    }

    /// Moves the slot to `state` if the life cycle allows that move, and
    /// says whether it did. A refused move changes nothing.
    pub fn transition(&mut self, state: Procstate) -> (moved: bool)
        ensures
            moved == transition_allowed(old(self).state, state),
            moved ==> *final(self) == (ProcData { state, ..*old(self) }),
            !moved ==> *final(self) == *old(self),
    {
        if self.state.can_become(state) {
            self.state = state;
            true
        } else {
            false
        }
    }

    /// Gives the process the user address space `pagetable`, or none.
    pub fn set_pagetable(&mut self, pagetable: Option<PageTable>)
        ensures
            *final(self) == (ProcData { pagetable, ..*old(self) }),
    {
        self.pagetable = pagetable;
    }

    /// Sets the table position of the parent. The caller holds the lock of
    /// the process tree.
    pub fn set_parent(&mut self, parent: Option<usize>)
        ensures
            *final(self) == (ProcData { parent, ..*old(self) }),
    {
        self.parent = parent;
    }

    /// Replaces the saved registers of the process's kernel thread.
    pub fn set_context(&mut self, ctx: Context)
        ensures
            *final(self) == (ProcData { context: ctx, ..*old(self) }),
    {
        self.context = ctx;
    }

    /// Retires the slot: takes the trapframe page and the address space out
    /// of it for the caller to give back, and puts every field except the
    /// kernel stack address back to what it is in a slot that was never
    /// used.
    ///
    /// The caller holds the slot's lock and knows that nothing else uses
    /// the process any more.
    pub fn freeproc(&mut self) -> (released: Released)
        ensures
            *final(self) == old(self).freed(),
            released.trapframe == if old(self).trapframe != 0 {
                Some(old(self).trapframe)
            } else {
                None
            },
            released.pagetable == old(self).pagetable,
            released.size == old(self).size,
    {
        let trapframe = if self.trapframe != 0 {
            Some(self.trapframe)
        } else {
            None
        };
        self.set_trapframe(0);
        let pagetable = self.pagetable.take();
        let size = self.size;
        self.size = 0;
        self.pid = 0;
        self.set_parent(None);
        self.channel = 0;
        self.killed = 0;
        self.xstate = 0;
        self.set_context(Context::new());
        self.set_state(Procstate::UNUSED);
        Released { trapframe, pagetable, size }
    }

    /// One step in building the process's user address space: an empty
    /// table with the trampoline page mapped at the top and the process's
    /// trapframe page just below it.
    ///
    /// The caller starts with `Begin`, performs the action that comes back
    /// and reports its result as the next event, until `Return` comes back
    /// with the finished address space, which the caller then owns. If
    /// there is no memory for the table the result is `None`. If a mapping
    /// fails the table is handed out to be freed first, and the result is
    /// `None` as well.
    ///
    /// `trampoline` is the physical address of the trampoline code.
    pub fn proc_pagetable(&self, event: PagetableEvent, trampoline: usize) -> (action:
        PagetableAction)
        ensures
            action == pagetable_step(self.trapframe, trampoline, event),
    {
        match event {
            PagetableEvent::Begin => PagetableAction::Create,
            PagetableEvent::Created(None) => PagetableAction::Return(None),
            PagetableEvent::Created(Some(table)) => {
                // Only the kernel uses the trampoline, on the way to and
                // from user space, so user code gets no access to it.
                let perm = Permissions { read: true, write: false, execute: true, user: false };
                PagetableAction::MapRegion(
                    table,
                    Mapping {
                        region: Region::Trampoline,
                        va: TRAMPOLINE,
                        pa: trampoline as u64,
                        len: PGSIZE,
                        perm,
                    },
                )
            },
            PagetableEvent::Mapped(table, region, done) => {
                if !done {
                    PagetableAction::Free(table, 0)
                } else {
                    match region {
                        Region::Trampoline => {
                            let perm = Permissions {
                                read: true,
                                write: false,
                                execute: true,
                                user: false,
                            };
                            PagetableAction::MapRegion(
                                table,
                                Mapping {
                                    region: Region::Trapframe,
                                    va: TRAPFRAME,
                                    pa: self.trapframe as u64,
                                    len: PGSIZE,
                                    perm,
                                },
                            )
                        },
                        Region::Trapframe => PagetableAction::Return(Some(table)),
                    }
                }
            },
            PagetableEvent::Freed => PagetableAction::Return(None),
        }
    }

    /// What to ask of the address-space component in order to change the
    /// process's user memory by `n` bytes.
    pub fn growproc_request(&self, n: isize) -> (request: Resize)
        requires
            self.pagetable is Some,
            0 <= self.size + n <= usize::MAX,
        ensures
            request == resize_for(self.size, n),
    {
        if n > 0 {
            Resize::Grow { old_size: self.size, new_size: self.size + (n as usize) }
        } else if n < 0 {
            let target: i128 = self.size as i128 + n as i128;
            Resize::Shrink { old_size: self.size, new_size: target as usize }
        } else {
            Resize::Unchanged
        }
    }

    /// Grows or shrinks the process's user memory by `n` bytes, given the
    /// answer of the address-space component to the request for `n`:
    /// the size that is mapped now, or `None` if it could not do it.
    ///
    /// Returns whether the change was made. With `n` zero there is nothing
    /// to do and the answer is not looked at. Otherwise an answer becomes
    /// the new size, and without one the size stays as it was.
    pub fn growproc(&mut self, n: isize, reply: Option<usize>) -> (done: bool)
        requires
            old(self).pagetable is Some,
        ensures
            done == (n == 0 || reply is Some),
            *final(self) == old(self).grown(n, reply),
    {
        let mut size = self.size;
        if n != 0 {
            match reply {
                Some(new_size) => {
                    size = new_size;
                },
                None => {
                    return false;
                },
            }
        }
        self.size = size;
        true
    }

    /// The save area that the context switch writes to when the process
    /// gives up its core.
    pub fn get_context_mut(&mut self) -> (ctx: &mut Context)
        ensures
            *ctx == old(self).context,
            *final(self) == (ProcData { context: *final(ctx), ..*old(self) }),
    {
        &mut self.context
    }
}

/// One slot of the process table: the data of a process behind the slot's
/// lock, and a name for debugging.
///
/// A slot stays at its place in the table for as long as the kernel runs;
/// only what it holds changes.
#[derive(PartialEq, Eq, Debug)]
pub struct Process {
    pub data: ProcData,
    pub lock: Spinlock,
    pub name: &'static str,
}

impl Process {
    /// The slot after its process has asked for the scheduler: the lock is
    /// held across the switch and the process waits in `state`.
    pub open spec fn parked(self, state: Procstate, channel: usize) -> Process {
        Process {
            data: ProcData { state, channel, ..self.data },
            lock: Spinlock { locked: true },
            ..self
        }
    }

    /// The slot after its process has been switched back in and has let go
    /// of the lock.
    pub open spec fn resumed(self) -> Process {
        Process {
            data: ProcData { channel: 0, ..self.data },
            lock: Spinlock { locked: false },
            ..self
        }
    }

    /// A free slot that was never used.
    pub open spec fn unused() -> Process {
        Process { data: ProcData::fresh(), lock: Spinlock { locked: false }, name: "process" }
    }

    /// The slot after the scheduler has chosen its process: the lock is
    /// held across the switch and the process is `RUNNING`.
    pub open spec fn picked(self) -> Process {
        Process {
            data: ProcData { state: Procstate::RUNNING, ..self.data },
            lock: Spinlock { locked: true },
            ..self
        }
    }

    /// The slot with its lock free and its data untouched.
    pub open spec fn unlocked(self) -> Process {
        Process { lock: Spinlock { locked: false }, ..self }
    }

    /// The slot after a wakeup on `channel` has looked at it: a process
    /// that sleeps on that channel is `RUNNABLE`, any other is as before.
    pub open spec fn woken(self, channel: usize) -> Process {
        if self.data.state == Procstate::SLEEPING && self.data.channel == channel {
            Process { data: ProcData { state: Procstate::RUNNABLE, ..self.data }, ..self }
        } else {
            self
        }
    }

    /// The slot with its kernel stack at `kstack`.
    pub open spec fn with_kstack(self, kstack: usize) -> Process {
        Process { data: ProcData { kstack, ..self.data }, ..self }
    }

    /// A free slot that was never used.
    pub fn new() -> (slot: Process)
        ensures
            slot == Process::unused(),
    {
        Process { data: ProcData::new(), lock: Spinlock::new(), name: "process" }
    }

    /// Gives up the core for one scheduling round.
    ///
    /// Takes the process's own lock, marks the process `RUNNABLE` and asks
    /// for the switch to the scheduler of `cpu`. On `Ok` the caller
    /// switches from the process's save area to the core's; the lock stays
    /// held across the switch and the scheduler lets go of it. When the
    /// process is switched back in, the caller finishes with
    /// `yielding_return`. `Err` means the kernel must halt.
    ///
    /// Only the process that runs on `cpu` calls this, so its state is
    /// `RUNNING` and nobody holds its lock.
    pub fn yielding(&mut self, cpu: &mut Cpu) -> (permit: Result<Handoff, SchedFault>)
        requires
            old(self).data.state == Procstate::RUNNING,
            !old(self).lock.locked,
            old(cpu).noff < usize::MAX,
        ensures
            *final(self) == old(self).parked(Procstate::RUNNABLE, old(self).data.channel),
            *final(cpu) == old(cpu).pushed(),
            permit == sched_outcome(*final(cpu)),
            slot_step_keeps_exclusive(*old(self), *final(self), *old(cpu), *final(cpu)),
    {
        self.lock.acquire(cpu);
        self.data.set_state(Procstate::RUNNABLE);
        proof {
            assert forall|table: Seq<Process>, cpus: Seq<Cpu>, slot: int, c: int|
                exclusive(table, cpus) && 0 <= slot < table.len() && table[slot] == *old(self) && 0
                    <= c < cpus.len() && cpus[c] == *old(cpu) implies #[trigger] exclusive(
                table.update(slot, *self),
                cpus.update(c, *cpu),
            ) by {
                lemma_parking_exclusive(
                    table,
                    cpus,
                    c,
                    slot,
                    Procstate::RUNNABLE,
                    old(self).data.channel,
                    *cpu,
                );
            }
        }
        sched(cpu)
    }

    /// Finishes `yielding` once the process runs again, on `cpu`: puts the
    /// thread's interrupt-enable flag back and lets go of the lock that the
    /// scheduler took before it switched to the process.
    pub fn yielding_return(&mut self, permit: Handoff, cpu: &mut Cpu)
        requires
            old(self).lock.locked,
            old(cpu).noff >= 1,
        ensures
            *final(self) == old(self).unlocked(),
            *final(cpu) == (Cpu { intena: permit.intena, ..*old(cpu) }).popped(),
            old(self).data.state == Procstate::RUNNING ==> slot_step_keeps_exclusive(
                *old(self),
                *final(self),
                *old(cpu),
                *final(cpu),
            ),
    {
        sched_return(cpu, permit);
        self.lock.release(cpu);
        proof {
            if old(self).data.state == Procstate::RUNNING {
                assert forall|table: Seq<Process>, cpus: Seq<Cpu>, slot: int, c: int|
                    exclusive(table, cpus) && 0 <= slot < table.len() && table[slot] == *old(self)
                        && 0 <= c < cpus.len() && cpus[c] == *old(cpu) implies #[trigger] exclusive(
                    table.update(slot, *self),
                    cpus.update(c, *cpu),
                ) by {
                    lemma_resuming_exclusive(table, cpus, c, slot, *cpu);
                }
            }
        }
    }

    /// Lets go of `lock` and waits on `channel`, without a gap in which a
    /// wakeup could be missed.
    ///
    /// The process's own lock is taken first and `lock` is released only
    /// then. A wakeup has to take the process's lock before it looks at the
    /// process, so from the moment the condition guarded by `lock` can
    /// change until the process is marked `SLEEPING` on `channel`, no
    /// wakeup can look at it. Then the switch to the scheduler of `cpu` is
    /// asked for, as in `yielding`; when the process runs again the caller
    /// finishes with `sleep_return`. `lock` is not taken again.
    pub fn sleep(&mut self, channel: usize, lock: &mut Spinlock, cpu: &mut Cpu) -> (permit: Result<
        Handoff,
        SchedFault,
    >)
        requires
            old(self).data.state == Procstate::RUNNING,
            !old(self).lock.locked,
            old(lock).locked,
            old(cpu).noff < usize::MAX,
        ensures
            *final(self) == old(self).parked(Procstate::SLEEPING, channel),
            !final(lock).locked,
            *final(cpu) == old(cpu).pushed().popped(),
            permit == sched_outcome(*final(cpu)),
            slot_step_keeps_exclusive(*old(self), *final(self), *old(cpu), *final(cpu)),
    {
        self.lock.acquire(cpu);
        lock.release(cpu);
        self.data.channel = channel;
        self.data.set_state(Procstate::SLEEPING);
        proof {
            assert forall|table: Seq<Process>, cpus: Seq<Cpu>, slot: int, c: int|
                exclusive(table, cpus) && 0 <= slot < table.len() && table[slot] == *old(self) && 0
                    <= c < cpus.len() && cpus[c] == *old(cpu) implies #[trigger] exclusive(
                table.update(slot, *self),
                cpus.update(c, *cpu),
            ) by {
                lemma_parking_exclusive(
                    table,
                    cpus,
                    c,
                    slot,
                    Procstate::SLEEPING,
                    channel,
                    *cpu,
                );
            }
        }
        sched(cpu)
    }

    /// Finishes `sleep` once the process runs again, on `cpu`: puts the
    /// thread's interrupt-enable flag back, clears the channel and lets go
    /// of the process's lock.
    pub fn sleep_return(&mut self, permit: Handoff, cpu: &mut Cpu)
        requires
            old(self).lock.locked,
            old(cpu).noff >= 1,
        ensures
            *final(self) == old(self).resumed(),
            *final(cpu) == (Cpu { intena: permit.intena, ..*old(cpu) }).popped(),
            old(self).data.state == Procstate::RUNNING ==> slot_step_keeps_exclusive(
                *old(self),
                *final(self),
                *old(cpu),
                *final(cpu),
            ),
    {
        sched_return(cpu, permit);
        self.data.channel = 0;
        self.lock.release(cpu);
        proof {
            if old(self).data.state == Procstate::RUNNING {
                assert forall|table: Seq<Process>, cpus: Seq<Cpu>, slot: int, c: int|
                    exclusive(table, cpus) && 0 <= slot < table.len() && table[slot] == *old(self)
                        && 0 <= c < cpus.len() && cpus[c] == *old(cpu) implies #[trigger] exclusive(
                    table.update(slot, *self),
                    cpus.update(c, *cpu),
                ) by {
                    lemma_resuming_exclusive(table, cpus, c, slot, *cpu);
                }
            }
        }
    }
}

/// What the address-space component answers while one address space is
/// built: whether there was memory for the table, and whether each of the
/// two mappings went in.
pub struct Replies {
    pub created: Option<PageTable>,
    pub trampoline_mapped: bool,
    pub trapframe_mapped: bool,
}

/// The event with which a component that answers as `replies` reports the
/// result of `action`.
pub open spec fn reply_to(action: PagetableAction, replies: Replies) -> PagetableEvent {
    match action {
        PagetableAction::Create => PagetableEvent::Created(replies.created),
        PagetableAction::MapRegion(table, mapping) => PagetableEvent::Mapped(
            table,
            mapping.region,
            match mapping.region {
                Region::Trampoline => replies.trampoline_mapped,
                Region::Trapframe => replies.trapframe_mapped,
            },
        ),
        PagetableAction::Free(_, _) => PagetableEvent::Freed,
        PagetableAction::Return(_) => PagetableEvent::Begin,
    }
}

/// The actions that `proc_pagetable` asks for, in order, from `event` on
/// and for at most `steps` further events, when the component answers as
/// `replies`. The run ends with `Return`.
pub open spec fn pagetable_run(
    trapframe: usize,
    trampoline: usize,
    event: PagetableEvent,
    replies: Replies,
    steps: nat,
) -> Seq<PagetableAction>
    decreases steps,
{
    let action = pagetable_step(trapframe, trampoline, event);
    if steps == 0 || action is Return {
        seq![action]
    } else {
        seq![action] + pagetable_run(
            trapframe,
            trampoline,
            reply_to(action, replies),
            replies,
            (steps - 1) as nat,
        )
    }
}

/// Building an address space takes one of four courses, by what the
/// component answers. The caller gets the table only if it was created and
/// both pages were mapped; a table in which a mapping failed is handed out
/// to be freed before the caller is told that there is none.
pub proof fn lemma_pagetable_run(trapframe: usize, trampoline: usize, replies: Replies)
    ensures
        ({
            let run = pagetable_run(trapframe, trampoline, PagetableEvent::Begin, replies, 4);
            match replies.created {
                None => run == seq![PagetableAction::Create, PagetableAction::Return(None)],
                Some(table) => if !replies.trampoline_mapped {
                    run == seq![
                        PagetableAction::Create,
                        PagetableAction::MapRegion(table, trampoline_mapping(trampoline)),
                        PagetableAction::Free(table, 0),
                        PagetableAction::Return(None),
                    ]
                } else if !replies.trapframe_mapped {
                    run == seq![
                        PagetableAction::Create,
                        PagetableAction::MapRegion(table, trampoline_mapping(trampoline)),
                        PagetableAction::MapRegion(table, trapframe_mapping(trapframe)),
                        PagetableAction::Free(table, 0),
                        PagetableAction::Return(None),
                    ]
                } else {
                    run == seq![
                        PagetableAction::Create,
                        PagetableAction::MapRegion(table, trampoline_mapping(trampoline)),
                        PagetableAction::MapRegion(table, trapframe_mapping(trapframe)),
                        PagetableAction::Return(Some(table)),
                    ]
                },
            }
        }),
{
    reveal_with_fuel(pagetable_run, 6);
}

impl ProcData {
    /// The data after `growproc` has run for `n` with the answer `reply`.
    pub open spec fn grown(self, n: isize, reply: Option<usize>) -> ProcData {
        ProcData {
            size: if n != 0 && reply is Some {
                reply->Some_0
            } else {
                self.size
            },
            ..self
        }
    }

    /// The data after `freeproc`.
    pub open spec fn freed(self) -> ProcData {
        ProcData { kstack: self.kstack, ..ProcData::fresh() }
    }
}

/// Growth that the address-space component refuses changes nothing.
pub proof fn lemma_refused_growth_changes_nothing(data: ProcData, n: isize)
    requires
        n > 0,
    ensures
        data.grown(n, None) == data,
{
}

/// Shrinking by no more than what is mapped, answered by the component
/// with the size it was asked for, leaves exactly that much less.
pub proof fn lemma_shrink_takes_off(data: ProcData, n: isize, reply: usize)
    requires
        n < 0,
        -n <= data.size,
        resize_for(data.size, n) == (Resize::Shrink { old_size: data.size, new_size: reply }),
    ensures
        data.grown(n, Some(reply)).size == data.size + n,
{
}

/// A retired slot differs from one that was never used in nothing but its
/// kernel stack address, which it keeps.
pub proof fn lemma_freed_is_fresh(data: ProcData)
    ensures
        data.freed().kstack == data.kstack,
        (ProcData { kstack: 0, ..data.freed() }) == ProcData::fresh(),
        data.state == Procstate::ZOMBIE ==> transition_allowed(data.state, data.freed().state),
{
}

/// Every change of state that the scheduler loop, `yielding`, `sleep` and
/// a wakeup make is a move of the life cycle; letting go of a lock and
/// setting the kernel stack change no state.
pub proof fn lemma_steps_follow_life_cycle(slot: Process, channel: usize, kstack: usize)
    ensures
        slot.data.state == Procstate::RUNNABLE ==> transition_allowed(
            slot.data.state,
            slot.picked().data.state,
        ),
        slot.data.state == Procstate::RUNNING ==> transition_allowed(
            slot.data.state,
            slot.parked(Procstate::RUNNABLE, channel).data.state,
        ),
        slot.data.state == Procstate::RUNNING ==> transition_allowed(
            slot.data.state,
            slot.parked(Procstate::SLEEPING, channel).data.state,
        ),
        slot.woken(channel).data.state == slot.data.state || transition_allowed(
            slot.data.state,
            slot.woken(channel).data.state,
        ),
        slot.unlocked().data.state == slot.data.state,
        slot.resumed().data.state == slot.data.state,
        slot.with_kstack(kstack).data.state == slot.data.state,
{
}

/// The kernel stack of a slot is set when the table is set up and stays:
/// no step of the scheduler loop or of a process, no wakeup, no change of
/// the user memory and no retiring of the slot moves it.
pub proof fn lemma_steps_keep_kstack(
    slot: Process,
    state: Procstate,
    channel: usize,
    n: isize,
    reply: Option<usize>,
)
    ensures
        slot.picked().data.kstack == slot.data.kstack,
        slot.parked(state, channel).data.kstack == slot.data.kstack,
        slot.unlocked().data.kstack == slot.data.kstack,
        slot.resumed().data.kstack == slot.data.kstack,
        slot.woken(channel).data.kstack == slot.data.kstack,
        slot.data.grown(n, reply).kstack == slot.data.kstack,
        slot.data.freed().kstack == slot.data.kstack,
{
}

/// A wakeup cannot miss a process that is going to sleep. From the moment
/// `sleep` has taken the process's lock the slot is locked, so that a
/// wakeup has to wait in front of it; and once the scheduler has let go of
/// the lock, the wakeup finds the process asleep on the channel and makes
/// it `RUNNABLE`.
pub proof fn lemma_wakeup_not_missed(slot: Process, channel: usize)
    ensures
        slot.parked(Procstate::SLEEPING, channel).lock.locked,
        slot.parked(Procstate::SLEEPING, channel).unlocked().woken(channel).data.state
            == Procstate::RUNNABLE,
        slot.parked(Procstate::SLEEPING, channel).unlocked().woken(channel).data.channel == channel,
{
}

} // verus!
