//! One user task: its saved context and its scheduling state.

use vstd::prelude::*;
use crate::kernel::trap::{caller_regs_zero, callee_regs_zero, SSTATUS_SPP, TrapContext};

verus! {

/// One user task.
#[derive(Clone, Copy, Debug, PartialEq, Eq, Structural)]
pub struct Task {
    /// The task's saved register context.
    pub cx: TrapContext,
    /// The task's scheduling state.
    pub state: TaskState,
}

/// The scheduling state of a task.
#[derive(Clone, Copy, Debug, PartialEq, Eq, Structural)]
pub enum TaskState {
    /// The task can run.
    Ready,
    /// The task has exited.
    Exited,
}

impl Task {
    /// A fresh, ready task entered at `entrypoint` on a stack topping
    /// out at `stack_top`, with the machine-supplied status bits
    /// `sstatus`.
    pub fn new(entrypoint: usize, stack_top: usize, sstatus: usize) -> (r: Task)
        ensures
            r.cx.caller == caller_regs_zero(),
            r.cx.callee == callee_regs_zero(),
            r.cx.csr.sstatus == sstatus | SSTATUS_SPP,
            r.cx.csr.sepc == entrypoint,
            r.cx.sp == stack_top,
            r.state == TaskState::Ready,
    {
        Task {
            cx: TrapContext::new_user(entrypoint, stack_top, sstatus),
            state: TaskState::Ready,
        }
    }
}

} // verus!
