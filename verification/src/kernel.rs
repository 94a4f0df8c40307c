//! The supervisor-mode teaching helpers that ship beside the transport:
//! page-table entry encoding, the saved trap context of a user task, and
//! the system-call decisions made over it.
//!
//! Only the computational parts live here. Reading and writing control
//! and status registers, issuing environment calls and the assembly
//! entry paths belong to the machine; those hand plain values in and take
//! plain values back.

pub mod config;
pub mod page_table;
pub mod syscall;
pub mod task;
pub mod trap;
