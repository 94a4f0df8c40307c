//! Page-table entry encoding and the three-level location of a page.
//!
//! An entry packs a page-aligned physical address and its permission
//! flags into one word: the physical page number shifted into the upper
//! bits, the flag bits in the lowest ten. A page's location splits a
//! virtual address into the three directory indices that lead to it.

use vstd::prelude::*;
use crate::kernel::config::{PAGE_SIZE, PT_LENGTH};

verus! {

/// Flag bit: the entry is valid.
pub const PTE_V: u8 = 1;

/// Flag bit: the page is readable.
pub const PTE_R: u8 = 2;

/// Flag bit: the page is writable.
pub const PTE_W: u8 = 4;

/// Flag bit: the page is executable.
pub const PTE_X: u8 = 8;

/// Flag bit: the page is accessible in user mode.
pub const PTE_U: u8 = 16;

/// Flag bit: the mapping is global.
pub const PTE_G: u8 = 32;

/// Flag bit: the page has been accessed.
pub const PTE_A: u8 = 64;

/// Flag bit: the page is dirty.
pub const PTE_D: u8 = 128;

/// One page-table entry: physical page number and flags in one word.
#[derive(Clone, Copy, Debug, PartialEq, Eq, Structural)]
pub struct PageTableEntry {
    /// The packed entry word.
    pub i: usize,
}

impl PageTableEntry {
    /// Packs the page-aligned address `addr` and `flags` into an entry:
    /// the physical page number in the bits above the ten flag bits.
    pub fn new(addr: usize, flags: u8) -> (r: PageTableEntry)
        requires
            addr as int % PAGE_SIZE as int == 0,
        ensures
            r.i == (addr as int / PAGE_SIZE as int) * 1024 + flags,
    {
        PageTableEntry { i: (addr / PAGE_SIZE) * 1024 + flags as usize }
    }

    /// The all-zero entry: invalid, mapping nothing.
    pub fn empty() -> (r: PageTableEntry)
        ensures
            r.i == 0,
    {
        PageTableEntry { i: 0 }
    }
}

/// The three directory indices that locate one page in a three-level
/// page table.
#[derive(Clone, Copy, Debug, PartialEq, Eq, Structural)]
pub struct PageLocation {
    /// Index into the upper page directory.
    pub pt3: usize,
    /// Index into the middle page directory.
    pub pt2: usize,
    /// Index into the page directory.
    pub pt1: usize,
}

impl PageLocation {
    /// Splits the virtual address `addr` into its three directory
    /// indices, nine bits each, above the page offset.
    pub fn new(addr: usize) -> (r: PageLocation)
        ensures
            r.pt1 == (addr as int / PAGE_SIZE as int) % PT_LENGTH as int,
            r.pt2 == (addr as int / (PAGE_SIZE as int * PT_LENGTH as int)) % PT_LENGTH as int,
            r.pt3 == (addr as int / (PAGE_SIZE as int * PT_LENGTH as int * PT_LENGTH as int))
                % PT_LENGTH as int,
            r.pt1 < PT_LENGTH as int,
            r.pt2 < PT_LENGTH as int,
            r.pt3 < PT_LENGTH as int,
    {
        let pt1 = (addr / PAGE_SIZE) % PT_LENGTH;
        let pt2 = (addr / PAGE_SIZE / PT_LENGTH) % PT_LENGTH;
        let pt3 = (addr / PAGE_SIZE / PT_LENGTH / PT_LENGTH) % PT_LENGTH;
        proof {
            assert(addr as int / PAGE_SIZE as int / PT_LENGTH as int
                == addr as int / (PAGE_SIZE as int * PT_LENGTH as int)) by (nonlinear_arith);
            assert(addr as int / PAGE_SIZE as int / PT_LENGTH as int / PT_LENGTH as int
                == addr as int / (PAGE_SIZE as int * PT_LENGTH as int * PT_LENGTH as int))
                by (nonlinear_arith);
        }
        PageLocation { pt3, pt2, pt1 }
    }
}

} // verus!
