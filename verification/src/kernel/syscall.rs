//! System-call handling: the decision part.
//!
//! The kernel reads the call number and arguments out of the trapped
//! task's context and decides what is to be done. The one effect it
//! cannot carry out itself — copying the user's bytes to the console —
//! is handed back as a [`SyscallAction`]; the machine-facing caller
//! performs it and reports the outcome through [`finish_write`], which
//! writes the task's return value.

use vstd::prelude::*;
use crate::kernel::task::{Task, TaskState};

verus! {

/// The file descriptor of standard output.
pub const FD_STDOUT: usize = 1;

/// The system-call number of `write`.
pub const SYS_WRITE: usize = 64;

/// The system-call number of `exit`.
pub const SYS_EXIT: usize = 93;

/// The system-call number of `yield`.
pub const SYS_YIELD: usize = 124;

/// What handling one system call asks of the machine-facing caller.
#[derive(Clone, Copy, Debug, PartialEq, Eq, Structural)]
pub enum SyscallAction {
    /// Copy `len` bytes at user address `addr` to standard output, then
    /// report the outcome through [`finish_write`].
    Write {
        /// The user address of the bytes.
        addr: usize,
        /// How many bytes to write.
        len: usize,
    },
    /// The task exited with `code`; nothing more to do for it.
    Exit {
        /// The task's exit code.
        code: usize,
    },
    /// The task yielded; its return value is already written.
    Yield,
}

/// Decides one trapped system call.
///
/// A `write` to standard output becomes a [`SyscallAction::Write`] for
/// the caller to perform (a write to any other descriptor, like an
/// unknown call number, is a fatal condition the precondition excludes);
/// an `exit` marks the task exited; a `yield` writes a zero return
/// value.
pub fn handle(task: &mut Task) -> (r: SyscallAction)
    requires
        old(task).cx.caller.a7 == SYS_WRITE
            || old(task).cx.caller.a7 == SYS_EXIT
            || old(task).cx.caller.a7 == SYS_YIELD,
        old(task).cx.caller.a7 == SYS_WRITE ==> old(task).cx.caller.a0 == FD_STDOUT,
    ensures
        old(task).cx.caller.a7 == SYS_WRITE ==> r == (SyscallAction::Write {
            addr: old(task).cx.caller.a1,
            len: old(task).cx.caller.a2,
        }) && *final(task) == *old(task),
        old(task).cx.caller.a7 == SYS_EXIT ==> r == (SyscallAction::Exit {
            code: old(task).cx.caller.a0,
        }) && *final(task) == (Task { state: TaskState::Exited, ..*old(task) }),
        old(task).cx.caller.a7 == SYS_YIELD ==> r == SyscallAction::Yield
            && final(task).state == old(task).state
            && final(task).cx == (crate::kernel::trap::TrapContext {
                caller: crate::kernel::trap::CallerRegs { a1: 0, ..old(task).cx.caller },
                ..old(task).cx
            }),
    {
        let id = task.cx.arg5();
        if id == SYS_WRITE {
            SyscallAction::Write { addr: task.cx.arg1(), len: task.cx.arg2() }
        } else if id == SYS_EXIT {
            let code = task.cx.arg0();
            task.state = TaskState::Exited;
            SyscallAction::Exit { code }
        } else {
            task.cx.set_ret1(0);
            SyscallAction::Yield
        }
    }

/// Reports the outcome of the write that [`handle`] asked for: the
/// task's return value becomes the byte count on success and the
/// all-ones error value on failure.
pub fn finish_write(task: &mut Task, written: Option<usize>)
    ensures
        written matches Some(n) ==> *final(task) == (Task {
            cx: (crate::kernel::trap::TrapContext {
                caller: crate::kernel::trap::CallerRegs { a1: n, ..old(task).cx.caller },
                ..old(task).cx
            }),
            ..*old(task)
        }),
        written is None ==> *final(task) == (Task {
            cx: (crate::kernel::trap::TrapContext {
                caller: crate::kernel::trap::CallerRegs {
                    a1: usize::MAX,
                    ..old(task).cx.caller
                },
                ..old(task).cx
            }),
            ..*old(task)
        }),
    {
        match written {
            Some(n) => task.cx.set_ret1(n),
            None => task.cx.set_ret1(usize::MAX),
        }
    }

} // verus!
