//! No process runs on two cores at once.
//!
//! The cores of the machine share one process table and each has its own
//! `Cpu`. This module states what holds of the two together, and shows
//! that every step of the scheduler loop and of a process that gives up
//! its core keeps it.

use vstd::prelude::*;
use crate::cpu::Cpu;
use crate::process::Process;
use crate::procstate::Procstate;

verus! {

/// Whether core `c` has the process in `slot` as its own.
pub open spec fn owns(cpus: Seq<Cpu>, c: int, slot: usize) -> bool {
    0 <= c < cpus.len() && cpus[c].proc == Some(slot)
}

/// Whether no core has the process in `slot` as its own.
pub open spec fn unowned(cpus: Seq<Cpu>, slot: usize) -> bool {
    forall|c: int| !owns(cpus, c, slot)
}

/// What holds of the table and the cores at any time: a core's process is
/// in the table, it is `RUNNING` unless its lock is held for a switch, and
/// no two cores have the same process.
pub open spec fn exclusive(table: Seq<Process>, cpus: Seq<Cpu>) -> bool {
    &&& forall|c: int, slot: usize| #[trigger]
        owns(cpus, c, slot) ==> slot < table.len() && (table[slot as int].data.state
            == Procstate::RUNNING || table[slot as int].lock.locked)
    &&& forall|a: int, b: int, slot: usize| #[trigger]
        owns(cpus, a, slot) && #[trigger] owns(cpus, b, slot) ==> a == b
}

/// Whether core `c` finds the process in `slot` running on itself.
pub open spec fn observes_running(table: Seq<Process>, cpus: Seq<Cpu>, c: int, slot: usize) -> bool {
    owns(cpus, c, slot) && slot < table.len() && table[slot as int].data.state
        == Procstate::RUNNING
}

/// Whether a step that one core takes on one slot keeps the table and the
/// cores `exclusive`, wherever in the table the slot lies and whichever
/// core takes the step.
pub open spec fn slot_step_keeps_exclusive(
    slot_before: Process,
    slot_after: Process,
    cpu_before: Cpu,
    cpu_after: Cpu,
) -> bool {
    forall|table: Seq<Process>, cpus: Seq<Cpu>, slot: int, c: int|
        exclusive(table, cpus) && 0 <= slot < table.len() && table[slot] == slot_before && 0 <= c
            < cpus.len() && cpus[c] == cpu_before ==> #[trigger] exclusive(
            table.update(slot, slot_after),
            cpus.update(c, cpu_after),
        )
}

/// Whether a step that one core takes on the table keeps the table and
/// the cores `exclusive`, whichever core takes the step.
pub open spec fn table_step_keeps_exclusive(
    table_before: Seq<Process>,
    table_after: Seq<Process>,
    cpu_before: Cpu,
    cpu_after: Cpu,
) -> bool {
    forall|cpus: Seq<Cpu>, c: int|
        exclusive(table_before, cpus) && 0 <= c < cpus.len() && cpus[c] == cpu_before
            ==> #[trigger] exclusive(table_after, cpus.update(c, cpu_after))
}

/// A machine that has just come up has no process on any core.
pub proof fn lemma_exclusive_at_boot(table: Seq<Process>, cpus: Seq<Cpu>)
    requires
        forall|c: int| 0 <= c < cpus.len() ==> (#[trigger] cpus[c]).proc is None,
    ensures
        exclusive(table, cpus),
{
}

/// At most one core finds a given process running on itself.
pub proof fn lemma_one_core_runs(table: Seq<Process>, cpus: Seq<Cpu>, a: int, b: int, slot: usize)
    requires
        exclusive(table, cpus),
        observes_running(table, cpus, a, slot),
        observes_running(table, cpus, b, slot),
    ensures
        a == b,
{
}

/// A process that the scheduler loop may choose, one whose lock is free
/// and which is not `RUNNING`, is on no core.
pub proof fn lemma_free_slot_unowned(table: Seq<Process>, cpus: Seq<Cpu>, slot: usize)
    requires
        exclusive(table, cpus),
        slot < table.len(),
        !table[slot as int].lock.locked,
        table[slot as int].data.state != Procstate::RUNNING,
    ensures
        unowned(cpus, slot),
{
    assert forall|c: int| !owns(cpus, c, slot) by {
        if owns(cpus, c, slot) {
            assert(table[slot as int].data.state == Procstate::RUNNING
                || table[slot as int].lock.locked);
        }
    }
}

/// A step of core `c` that leaves the table alone and does not change
/// which process the core has: a scheduler stretch that ends in `Wait` or
/// `Idle`.
pub proof fn lemma_same_process_exclusive(table: Seq<Process>, cpus: Seq<Cpu>, c: int, after: Cpu)
    requires
        exclusive(table, cpus),
        0 <= c < cpus.len(),
        after.proc == cpus[c].proc,
    ensures
        exclusive(table, cpus.update(c, after)),
{
    let cpus2 = cpus.update(c, after);
    assert forall|d: int, slot: usize| #[trigger] owns(cpus2, d, slot) implies owns(
        cpus,
        d,
        slot,
    ) by {}
}

/// The scheduler loop of core `c` chooses the process in `slot`:
/// `scheduler` answers `Run`.
pub proof fn lemma_scheduler_exclusive(
    table: Seq<Process>,
    cpus: Seq<Cpu>,
    c: int,
    slot: usize,
    after: Cpu,
)
    requires
        exclusive(table, cpus),
        0 <= c < cpus.len(),
        slot < table.len(),
        !table[slot as int].lock.locked,
        table[slot as int].data.state == Procstate::RUNNABLE,
        after.proc == Some(slot),
    ensures
        exclusive(table.update(slot as int, table[slot as int].picked()), cpus.update(c, after)),
{
    lemma_free_slot_unowned(table, cpus, slot);
    let table2 = table.update(slot as int, table[slot as int].picked());
    let cpus2 = cpus.update(c, after);
    assert forall|d: int, other: usize| #[trigger] owns(cpus2, d, other) implies other
        < table2.len() && (table2[other as int].data.state == Procstate::RUNNING
        || table2[other as int].lock.locked) by {
        if d != c {
            assert(owns(cpus, d, other));
        }
    }
    assert forall|a: int, b: int, other: usize| #[trigger]
        owns(cpus2, a, other) && #[trigger] owns(cpus2, b, other) implies a == b by {
        if a != c {
            assert(owns(cpus, a, other));
        }
        if b != c {
            assert(owns(cpus, b, other));
        }
    }
}

/// The process in `slot` gives up core `c`: `yielding` or `sleep` leaves
/// it waiting in `state` with its lock held.
pub proof fn lemma_parking_exclusive(
    table: Seq<Process>,
    cpus: Seq<Cpu>,
    c: int,
    slot: int,
    state: Procstate,
    channel: usize,
    after: Cpu,
)
    requires
        exclusive(table, cpus),
        0 <= c < cpus.len(),
        0 <= slot < table.len(),
        after.proc == cpus[c].proc,
    ensures
        exclusive(
            table.update(slot, table[slot].parked(state, channel)),
            cpus.update(c, after),
        ),
{
    lemma_same_process_exclusive(table, cpus, c, after);
    let table2 = table.update(slot, table[slot].parked(state, channel));
    let cpus2 = cpus.update(c, after);
    assert forall|d: int, other: usize| #[trigger] owns(cpus2, d, other) implies other
        < table2.len() && (table2[other as int].data.state == Procstate::RUNNING
        || table2[other as int].lock.locked) by {
        assert(owns(cpus, d, other));
    }
}

/// The scheduler loop of core `c` gets the core back from its process:
/// `scheduler_return` lets go of the lock and the core has no process.
pub proof fn lemma_scheduler_return_exclusive(
    table: Seq<Process>,
    cpus: Seq<Cpu>,
    c: int,
    slot: usize,
    after: Cpu,
)
    requires
        exclusive(table, cpus),
        owns(cpus, c, slot),
        after.proc is None,
    ensures
        exclusive(table.update(slot as int, table[slot as int].unlocked()), cpus.update(c, after)),
        unowned(cpus.update(c, after), slot),
{
    let table2 = table.update(slot as int, table[slot as int].unlocked());
    let cpus2 = cpus.update(c, after);
    assert forall|d: int, other: usize| #[trigger] owns(cpus2, d, other) implies other
        < table2.len() && (table2[other as int].data.state == Procstate::RUNNING
        || table2[other as int].lock.locked) by {
        assert(owns(cpus, d, other));
        if other == slot {
            assert(owns(cpus, c, slot));
        }
    }
    assert forall|a: int, b: int, other: usize| #[trigger]
        owns(cpus2, a, other) && #[trigger] owns(cpus2, b, other) implies a == b by {
        assert(owns(cpus, a, other));
        assert(owns(cpus, b, other));
    }
    assert forall|d: int| !owns(cpus2, d, slot) by {
        if owns(cpus2, d, slot) {
            assert(owns(cpus, d, slot));
            assert(owns(cpus, c, slot));
        }
    }
}

/// The process in `slot`, switched back in on core `c`, lets go of its
/// lock: `yielding_return` or `sleep_return`. The scheduler loop made it
/// `RUNNING` before it switched to it.
pub proof fn lemma_resuming_exclusive(
    table: Seq<Process>,
    cpus: Seq<Cpu>,
    c: int,
    slot: int,
    after: Cpu,
)
    requires
        exclusive(table, cpus),
        0 <= c < cpus.len(),
        0 <= slot < table.len(),
        table[slot].data.state == Procstate::RUNNING,
        after.proc == cpus[c].proc,
    ensures
        exclusive(table.update(slot, table[slot].unlocked()), cpus.update(c, after)),
        exclusive(table.update(slot, table[slot].resumed()), cpus.update(c, after)),
{
    lemma_same_process_exclusive(table, cpus, c, after);
    let cpus2 = cpus.update(c, after);
    let table2 = table.update(slot, table[slot].unlocked());
    assert forall|d: int, other: usize| #[trigger] owns(cpus2, d, other) implies other
        < table2.len() && (table2[other as int].data.state == Procstate::RUNNING
        || table2[other as int].lock.locked) by {
        assert(owns(cpus, d, other));
    }
    let table3 = table.update(slot, table[slot].resumed());
    assert forall|d: int, other: usize| #[trigger] owns(cpus2, d, other) implies other
        < table3.len() && (table3[other as int].data.state == Procstate::RUNNING
        || table3[other as int].lock.locked) by {
        assert(owns(cpus, d, other));
    }
}

/// A stretch of a wakeup by core `c`: every slot is as it was or, if its
/// lock was free, as the wakeup leaves it.
pub proof fn lemma_wakeup_exclusive(
    table: Seq<Process>,
    cpus: Seq<Cpu>,
    c: int,
    channel: usize,
    woken: Seq<Process>,
    after: Cpu,
)
    requires
        exclusive(table, cpus),
        0 <= c < cpus.len(),
        after.proc == cpus[c].proc,
        woken.len() == table.len(),
        forall|k: int|
            0 <= k < table.len() ==> #[trigger] woken[k] == table[k] || (!table[k].lock.locked
                && woken[k] == table[k].woken(channel)),
    ensures
        exclusive(woken, cpus.update(c, after)),
{
    lemma_same_process_exclusive(table, cpus, c, after);
    let cpus2 = cpus.update(c, after);
    assert forall|d: int, other: usize| #[trigger] owns(cpus2, d, other) implies other
        < woken.len() && (woken[other as int].data.state == Procstate::RUNNING
        || woken[other as int].lock.locked) by {
        assert(owns(cpus, d, other));
        assert(woken[other as int] == table[other as int] || (!table[other as int].lock.locked
            && woken[other as int] == table[other as int].woken(channel)));
    }
}

} // verus!
