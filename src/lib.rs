//! POSIX-style signal bookkeeping for a multitasking kernel: per-thread
//! pending and blocked sets, a process-wide handler table, and the system
//! calls that drive them.

pub mod signal_set;
pub mod action;
pub mod process;
pub mod syscall;
pub mod batch;
pub mod laws;
