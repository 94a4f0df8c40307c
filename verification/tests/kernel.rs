//! Tests of the supervisor-mode helpers: entry encoding, trap context,
//! and system-call decisions.

use evering::kernel::page_table::{PageLocation, PageTableEntry, PTE_R, PTE_V, PTE_W};
use evering::kernel::syscall::{finish_write, handle, SyscallAction, SYS_EXIT, SYS_WRITE, SYS_YIELD};
use evering::kernel::task::{Task, TaskState};
use evering::kernel::trap::{TrapContext, SSTATUS_SPP};

#[test]
fn page_table_entry_packs_address_and_flags() {
    let e = PageTableEntry::new(0x8020_0000, PTE_V | PTE_R | PTE_W);
    assert_eq!(e.i, 0x2008_0007);
    assert_eq!(PageTableEntry::new(0, PTE_V).i, 1);
    assert_eq!(PageTableEntry::empty().i, 0);
}

#[test]
fn page_location_splits_directory_indices() {
    let loc = PageLocation::new(0x8020_0000);
    assert_eq!(loc.pt3, 2);
    assert_eq!(loc.pt2, 1);
    assert_eq!(loc.pt1, 0);
    let zero = PageLocation::new(0);
    assert_eq!((zero.pt3, zero.pt2, zero.pt1), (0, 0, 0));
    let top = PageLocation::new(0x7F_FFFF_F000);
    assert_eq!((top.pt3, top.pt2, top.pt1), (511, 511, 511));
}

#[test]
fn trap_context_registers() {
    let mut cx = TrapContext::new_user(0x1000, 0x8000, 0x40);
    assert_eq!(cx.csr.sepc, 0x1000);
    assert_eq!(cx.sp, 0x8000);
    assert_eq!(cx.csr.sstatus, 0x40 | SSTATUS_SPP);
    assert_eq!(cx.arg0(), 0);
    assert_eq!(cx.arg5(), 0);
    cx.caller.a0 = 11;
    cx.caller.a1 = 22;
    cx.caller.a2 = 33;
    cx.caller.a3 = 44;
    cx.caller.a4 = 55;
    cx.caller.a7 = 66;
    assert_eq!(cx.arg0(), 11);
    assert_eq!(cx.arg1(), 22);
    assert_eq!(cx.arg2(), 33);
    assert_eq!(cx.arg3(), 44);
    assert_eq!(cx.arg4(), 55);
    assert_eq!(cx.arg5(), 66);
    cx.set_ret0(77);
    cx.set_ret1(88);
    assert_eq!(cx.arg0(), 77);
    assert_eq!(cx.arg1(), 88);
}

#[test]
fn new_task_is_ready() {
    let t = Task::new(0x1000, 0x9000, 0);
    assert_eq!(t.state, TaskState::Ready);
    assert_eq!(t.cx.csr.sepc, 0x1000);
    assert_eq!(t.cx.sp, 0x9000);
}

#[test]
fn syscall_write_hands_back_the_buffer() {
    let mut t = Task::new(0, 0, 0);
    t.cx.caller.a7 = SYS_WRITE;
    t.cx.caller.a0 = 1;
    t.cx.caller.a1 = 0x5000;
    t.cx.caller.a2 = 12;
    let action = handle(&mut t);
    assert_eq!(action, SyscallAction::Write { addr: 0x5000, len: 12 });
    assert_eq!(t.state, TaskState::Ready);
    finish_write(&mut t, Some(12));
    assert_eq!(t.cx.arg1(), 12);
    finish_write(&mut t, None);
    assert_eq!(t.cx.arg1(), usize::MAX);
}

#[test]
fn syscall_exit_marks_the_task() {
    let mut t = Task::new(0, 0, 0);
    t.cx.caller.a7 = SYS_EXIT;
    t.cx.caller.a0 = 3;
    let action = handle(&mut t);
    assert_eq!(action, SyscallAction::Exit { code: 3 });
    assert_eq!(t.state, TaskState::Exited);
}

#[test]
fn syscall_yield_returns_zero() {
    let mut t = Task::new(0, 0, 0);
    t.cx.caller.a7 = SYS_YIELD;
    t.cx.caller.a1 = 99;
    let action = handle(&mut t);
    assert_eq!(action, SyscallAction::Yield);
    assert_eq!(t.cx.arg1(), 0);
    assert_eq!(t.state, TaskState::Ready);
}
