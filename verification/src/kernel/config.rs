//! Memory-layout constants of the supervisor-mode helpers.

use vstd::prelude::*;

verus! {

/// Number of entries in a page table.
pub const PT_LENGTH: usize = 512;

/// Width of a page directory index, in bits.
pub const PD_WIDTH: usize = 9;

/// Width of the page offset, in bits.
pub const PAGE_WIDTH: usize = 12;

/// Size of one page, in bytes.
pub const PAGE_SIZE: usize = 4096;

/// Width of a virtual address, in bits.
pub const VADDR_WIDTH: usize = 39;

/// Offset of the kernel memory region in virtual memory space.
pub const KADDR_OFFSET: u64 = 0xFFFF_FFC0_0000_0000;

/// Start of the physical memory region.
pub const PADDR_START: usize = 0x8000_0000;

/// End of the physical memory region.
pub const PADDR_END: usize = 0x8080_0000;

/// Size of one kernel stack, in bytes.
pub const KERNEL_STACK_SIZE: usize = 4096 * 2;

/// Size of one user stack, in bytes.
pub const USER_STACK_SIZE: usize = 4096 * 2;

} // verus!
