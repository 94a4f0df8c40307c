//! The saved register context of a user task.
//!
//! The machine's trap entry saves every register into this record and
//! restores it on the way back; between the two, the kernel reads the
//! system-call arguments out of it and writes the return values back in.
//! Reading the status register itself is the machine's business: the
//! constructor takes its raw value and marks the previous-privilege bit.

use vstd::prelude::*;

verus! {

/// The previous-privilege bit of the status register: set so that the
/// return path stays in supervisor mode.
pub const SSTATUS_SPP: usize = 256;

/// The caller-saved registers.
#[derive(Clone, Copy, Debug, PartialEq, Eq, Structural)]
pub struct CallerRegs {
    /// Argument and return register zero.
    pub a0: usize,
    /// Argument and return register one.
    pub a1: usize,
    /// Argument register two.
    pub a2: usize,
    /// Argument register three.
    pub a3: usize,
    /// Argument register four.
    pub a4: usize,
    /// Argument register five.
    pub a5: usize,
    /// Argument register six.
    pub a6: usize,
    /// Argument register seven, carrying the system-call number.
    pub a7: usize,
    /// Temporary register zero.
    pub t0: usize,
    /// Temporary register one.
    pub t1: usize,
    /// Temporary register two.
    pub t2: usize,
    /// Temporary register three.
    pub t3: usize,
    /// Temporary register four.
    pub t4: usize,
    /// Temporary register five.
    pub t5: usize,
    /// Temporary register six.
    pub t6: usize,
    /// The return address.
    pub ra: usize,
}

/// The callee-saved registers.
#[derive(Clone, Copy, Debug, PartialEq, Eq, Structural)]
pub struct CalleeRegs {
    /// Saved register zero.
    pub s0: usize,
    /// Saved register one.
    pub s1: usize,
    /// Saved register two.
    pub s2: usize,
    /// Saved register three.
    pub s3: usize,
    /// Saved register four.
    pub s4: usize,
    /// Saved register five.
    pub s5: usize,
    /// Saved register six.
    pub s6: usize,
    /// Saved register seven.
    pub s7: usize,
    /// Saved register eight.
    pub s8: usize,
    /// Saved register nine.
    pub s9: usize,
    /// Saved register ten.
    pub s10: usize,
    /// Saved register eleven.
    pub s11: usize,
}

/// The saved control and status registers.
#[derive(Clone, Copy, Debug, PartialEq, Eq, Structural)]
pub struct CsrRegs {
    /// The saved status register.
    pub sstatus: usize,
    /// The saved exception program counter.
    pub sepc: usize,
}

/// The complete saved context of one task.
#[derive(Clone, Copy, Debug, PartialEq, Eq, Structural)]
pub struct TrapContext {
    /// The caller-saved registers.
    pub caller: CallerRegs,
    /// The callee-saved registers.
    pub callee: CalleeRegs,
    /// The saved control and status registers.
    pub csr: CsrRegs,
    /// The task's stack pointer.
    pub sp: usize,
    /// The kernel-side stack pointer used when the task traps.
    pub ksp: usize,
}

/// The all-zero caller-saved registers.
pub open spec fn caller_regs_zero() -> CallerRegs {
    CallerRegs {
        a0: 0, a1: 0, a2: 0, a3: 0, a4: 0, a5: 0, a6: 0, a7: 0,
        t0: 0, t1: 0, t2: 0, t3: 0, t4: 0, t5: 0, t6: 0, ra: 0,
    }
}

/// The all-zero callee-saved registers.
pub open spec fn callee_regs_zero() -> CalleeRegs {
    CalleeRegs {
        s0: 0, s1: 0, s2: 0, s3: 0, s4: 0, s5: 0, s6: 0, s7: 0,
        s8: 0, s9: 0, s10: 0, s11: 0,
    }
}

impl TrapContext {
    /// A fresh context for a task entered at `entrypoint` on a stack
    /// topping out at `stack_top`: every register zeroed, the exception
    /// program counter at the entry point, and the previous-privilege
    /// bit marked in the status bits `sstatus` the machine supplied.
    pub fn new_user(entrypoint: usize, stack_top: usize, sstatus: usize) -> (r: TrapContext)
        ensures
            r.caller == caller_regs_zero(),
            r.callee == callee_regs_zero(),
            r.csr.sstatus == sstatus | SSTATUS_SPP,
            r.csr.sepc == entrypoint,
            r.sp == stack_top,
            r.ksp == 0,
    {
        TrapContext {
            caller: CallerRegs {
                a0: 0, a1: 0, a2: 0, a3: 0, a4: 0, a5: 0, a6: 0, a7: 0,
                t0: 0, t1: 0, t2: 0, t3: 0, t4: 0, t5: 0, t6: 0, ra: 0,
            },
            callee: CalleeRegs {
                s0: 0, s1: 0, s2: 0, s3: 0, s4: 0, s5: 0, s6: 0, s7: 0,
                s8: 0, s9: 0, s10: 0, s11: 0,
            },
            csr: CsrRegs { sstatus: sstatus | SSTATUS_SPP, sepc: entrypoint },
            sp: stack_top,
            ksp: 0,
        }
    }

    /// The first system-call argument.
    pub fn arg0(&self) -> (r: usize)
        ensures
            r == self.caller.a0,
    {
        self.caller.a0
    }

    /// The second system-call argument.
    pub fn arg1(&self) -> (r: usize)
        ensures
            r == self.caller.a1,
    {
        self.caller.a1
    }

    /// The third system-call argument.
    pub fn arg2(&self) -> (r: usize)
        ensures
            r == self.caller.a2,
    {
        self.caller.a2
    }

    /// The fourth system-call argument.
    pub fn arg3(&self) -> (r: usize)
        ensures
            r == self.caller.a3,
    {
        self.caller.a3
    }

    /// The fifth system-call argument.
    pub fn arg4(&self) -> (r: usize)
        ensures
            r == self.caller.a4,
    {
        self.caller.a4
    }

    /// The system-call number.
    pub fn arg5(&self) -> (r: usize)
        ensures
            r == self.caller.a7,
    {
        self.caller.a7
    }

    /// Writes the first return value.
    pub fn set_ret0(&mut self, val: usize)
        ensures
            *final(self) == (TrapContext {
                caller: CallerRegs { a0: val, ..old(self).caller },
                ..*old(self)
            }),
    {
        self.caller.a0 = val;
    }

    /// Writes the second return value.
    pub fn set_ret1(&mut self, val: usize)
        ensures
            *final(self) == (TrapContext {
                caller: CallerRegs { a1: val, ..old(self).caller },
                ..*old(self)
            }),
    {
        self.caller.a1 = val;
    }
}

} // verus!
