//! Process control and scheduling core of a small multi-core teaching kernel.
//!
//! The crate keeps the kernel's process table, the per-process state machine
//! and the hand-off protocol between a running process and its core's
//! scheduler as plain data, and proves what every operation does to that
//! data. Hardware work (the register switch, page-table edits, page frees)
//! is left to the caller: each operation says which action to perform and
//! takes the result of that action as an argument.

pub mod param;
pub mod procstate;
pub mod context;
pub mod cpu;
pub mod spinlock;
pub mod process;
pub mod scheduler;
pub mod exclusion;
