//! Sizes and addresses fixed by the kernel's memory layout.

use vstd::prelude::*;

verus! {

/// Number of slots in the process table built by `ProcManager::new`.
pub const NPROC: usize = 64;

/// Bytes per page.
pub const PGSIZE: u64 = 4096;

/// One past the highest virtual address of a user address space.
pub const MAXVA: u64 = 0x40_0000_0000;

/// Virtual address of the trampoline page, the highest page of every
/// address space.
pub const TRAMPOLINE: u64 = MAXVA - PGSIZE;

/// Virtual address of the trapframe page, directly below the trampoline.
pub const TRAPFRAME: u64 = TRAMPOLINE - PGSIZE;

/// Bytes of kernel virtual address space reserved per process slot for its
/// kernel stack: the stack page and the guard page that follows it.
pub const KSTACK_SIZE: usize = 8192;

/// Kernel stack address of the slot at position `index` of the table.
pub open spec fn kstack_of(index: int) -> int {
    index * KSTACK_SIZE
}

/// Distinct slots get distinct kernel stacks, in table order.
pub proof fn lemma_kstack_increasing(i: int, j: int)
    requires
        0 <= i < j,
    ensures
        0 <= kstack_of(i) < kstack_of(j),
        kstack_of(j) - kstack_of(i) >= KSTACK_SIZE,
{
}

/// Neighbouring slots are exactly one slot size apart.
pub proof fn lemma_kstack_spacing(i: int)
    ensures
        kstack_of(i + 1) - kstack_of(i) == KSTACK_SIZE,
{
}

} // verus!
