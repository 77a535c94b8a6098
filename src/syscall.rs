//! The signal system calls, over the state of the calling process.

use vstd::prelude::*;
use crate::action::SigAction;
use crate::process::{ProcessSignals, SignalModule, TrapFrame, module_raised, ids_unique};
use crate::signal_set::{SignalSet, SIGKILL, SIGSTOP, valid_signum, sig_bit, blocks_unblockable, blocks_kill_or_stop};

verus! {

/// The ways a signal system call fails.
#[derive(Clone, Copy, Debug, PartialEq, Eq, Structural)]
pub enum SyscallError {
    /// The action of a signal that cannot be caught was to change.
    EPERM,
    /// No such process.
    ESRCH,
    /// A blocking wait ended, as it always does.
    EINTR,
    /// A user address cannot be made resident.
    EFAULT,
    /// A malformed argument.
    EINVAL,
}

impl SyscallError {
    /// The errno value, as user space knows it.
    pub fn errno(&self) -> (r: isize)
        ensures
            r == match *self {
                SyscallError::EPERM => 1isize,
                SyscallError::ESRCH => 3isize,
                SyscallError::EINTR => 4isize,
                SyscallError::EFAULT => 14isize,
                SyscallError::EINVAL => 22isize,
            },
    {
        match *self {
            SyscallError::EPERM => 1,
            SyscallError::ESRCH => 3,
            SyscallError::EINTR => 4,
            SyscallError::EFAULT => 14,
            SyscallError::EINVAL => 22,
        }
    }
}

pub type SyscallResult = Result<isize, SyscallError>;

/// How `sigprocmask` combines the given set with the current mask.
#[derive(Clone, Copy, Debug, PartialEq, Eq, Structural)]
pub enum SigMaskFlag {
    SigBlock,
    SigUnblock,
    SigSetmask,
}

/// Size in bytes of the signal set that user space passes.
pub const SIGSET_SIZE_IN_BYTE: usize = 8;

/// A user pointer to a value the kernel reads, after the caller tried to
/// make it resident.
#[derive(Clone, Copy, Debug, PartialEq, Eq, Structural)]
pub enum UserIn<T> {
    Null,
    /// Non-null, but the range cannot be made resident.
    Unmapped,
    Value(T),
}

/// A user pointer the kernel writes to, after the caller tried to make it
/// resident.
#[derive(Clone, Copy, Debug, PartialEq, Eq, Structural)]
pub enum UserOut {
    Null,
    /// Non-null, but the range cannot be made resident.
    Unmapped,
    Mapped,
}

/// What `sigaction` returns: the old action to copy out, if one was asked
/// for and the number names a signal.
pub open spec fn sigaction_outcome(old_action: SigAction, signum: usize, want_old: bool) -> Result<
    Option<SigAction>,
    SyscallError,
> {
    if signum == SIGKILL || signum == SIGSTOP {
        Err(SyscallError::EPERM)
    } else if want_old && valid_signum(signum as int) {
        Ok(Some(old_action))
    } else {
        Ok(None)
    }
}

/// Whether the action of `signum` is fixed, so that `sigaction` refuses to
/// change it.
pub fn action_is_fixed(signum: usize) -> (r: bool)
    ensures
        r == (signum == SIGKILL || signum == SIGSTOP),
{
    signum as u64 == SIGKILL || signum as u64 == SIGSTOP
}

/// Records `action` (when given) as the action for `signum` of the calling
/// thread's process, and hands back the action it replaces when `want_old`.
/// Both happen at once, so no other call can come between them. The action
/// of `SIGKILL` and `SIGSTOP` cannot change (`EPERM`); that is the only
/// failure. A number that names no signal has no entry: the call succeeds,
/// changes nothing and hands nothing back.
pub fn syscall_sigaction(
    process: &mut ProcessSignals,
    signum: usize,
    action: Option<SigAction>,
    want_old: bool,
) -> (r: Result<Option<SigAction>, SyscallError>)
    requires
        old(process).wf(),
    ensures
        final(process).wf(),
        final(process).pid == old(process).pid,
        final(process).main_tid == old(process).main_tid,
        final(process).signal_modules@ == old(process).signal_modules@,
        signum == SIGKILL || signum == SIGSTOP ==> r == Err::<Option<SigAction>, SyscallError>(
            SyscallError::EPERM,
        ) && final(process).handler.actions@ == old(process).handler.actions@,
        r == sigaction_outcome(
            if valid_signum(signum as int) { old(process).handler.action(signum as int) } else { SigAction::spec_default() },
            signum,
            want_old,
        ),
        r is Err <==> (signum == SIGKILL || signum == SIGSTOP),
        final(process).handler.actions@ == match (r, action) {
            (Ok(_), Some(a)) => if valid_signum(signum as int) {
                old(process).handler.actions@.update(signum - 1, a)
            } else {
                old(process).handler.actions@
            },
            _ => old(process).handler.actions@,
        },
{
    if action_is_fixed(signum) {
        return Err(SyscallError::EPERM);
    }
    let old_action = match process.handler.get_action(signum) {
        Some(a) => a,
        None => {
            return Ok(None);
        },
    };
    if let Some(a) = action {
        process.handler.set_action(signum, a);
    }
    if want_old {
        Ok(Some(old_action))
    } else {
        Ok(None)
    }
}


/// The mask after `sigprocmask` combined `mask` with the set `m` by `flag`.
pub open spec fn masked(flag: SigMaskFlag, mask: u64, m: u64) -> u64 {
    match flag {
        SigMaskFlag::SigBlock => mask | m,
        SigMaskFlag::SigUnblock => mask & !m,
        SigMaskFlag::SigSetmask => m,
    }
}

/// `m` with its mask set to `mask`.
pub open spec fn with_mask(m: SignalModule, mask: u64) -> SignalModule {
    SignalModule { signal_set: SignalSet { mask, ..m.signal_set }, ..m }
}

/// What `sigprocmask` returns: the old mask to copy out, if one was asked
/// for.
pub open spec fn sigprocmask_outcome(
    flag: SigMaskFlag,
    old_mask: u64,
    new_mask: UserIn<u64>,
    old_ptr: UserOut,
    sigsetsize: usize,
) -> Result<Option<u64>, SyscallError> {
    if sigsetsize != SIGSET_SIZE_IN_BYTE {
        Err(SyscallError::EINVAL)
    } else if old_ptr is Unmapped {
        Err(SyscallError::EFAULT)
    } else if new_mask is Unmapped {
        Err(SyscallError::EPERM)
    } else if new_mask matches UserIn::Value(m) && blocks_unblockable(masked(flag, old_mask, m)) {
        Err(SyscallError::EINVAL)
    } else if old_ptr is Mapped {
        Ok(Some(old_mask))
    } else {
        Ok(None)
    }
}

/// Changes the blocked set of thread `tid` by `flag` with the set that
/// `new_mask` holds, and hands back the set it had when `old_ptr` asks
/// for it. Signals already pending stay pending. A set size other than
/// `SIGSET_SIZE_IN_BYTE` is refused with `EINVAL` before anything else; then
/// an old-set pointer that cannot be made resident with `EFAULT`, a
/// new-set pointer that cannot with `EPERM`, and a change that would block
/// `SIGKILL` or `SIGSTOP` with `EINVAL`. A refused call changes nothing.
pub fn syscall_sigprocmask(
    process: &mut ProcessSignals,
    tid: u64,
    flag: SigMaskFlag,
    new_mask: UserIn<u64>,
    old_ptr: UserOut,
    sigsetsize: usize,
) -> (r: Result<Option<u64>, SyscallError>)
    requires
        old(process).wf(),
        old(process).has_thread(tid),
    ensures
        final(process).wf(),
        final(process).pid == old(process).pid,
        final(process).main_tid == old(process).main_tid,
        final(process).handler == old(process).handler,
        sigsetsize != SIGSET_SIZE_IN_BYTE ==> r == Err::<Option<u64>, SyscallError>(SyscallError::EINVAL)
            && final(process).signal_modules@ == old(process).signal_modules@,
        r == sigprocmask_outcome(flag, old(process).module(tid).signal_set.mask, new_mask, old_ptr, sigsetsize),
        final(process).has_thread(tid),
        !blocks_unblockable(final(process).module(tid).signal_set.mask),
        match (r, new_mask) {
            (Ok(_), UserIn::Value(m)) => final(process).modules_changed(
                old(process).signal_modules@,
                tid,
                |md: SignalModule| with_mask(md, masked(flag, md.signal_set.mask, m)),
            ),
            _ => final(process).signal_modules@ == old(process).signal_modules@,
        },
{
    if sigsetsize != SIGSET_SIZE_IN_BYTE {
        return Err(SyscallError::EINVAL);
    }
    if let UserOut::Unmapped = old_ptr {
        return Err(SyscallError::EFAULT);
    }
    if let UserIn::Unmapped = new_mask {
        return Err(SyscallError::EPERM);
    }
    let j = match process.find_module(tid) {
        Some(j) => j,
        None => {
            return Err(SyscallError::EINVAL);
        },
    };
    let mut md = process.signal_modules[j];
    let old_mask = md.signal_set.mask;
    if let UserIn::Value(m) = new_mask {
        let mask = match flag {
            SigMaskFlag::SigBlock => old_mask | m,
            SigMaskFlag::SigUnblock => old_mask & !m,
            SigMaskFlag::SigSetmask => m,
        };
        if blocks_kill_or_stop(mask) {
            return Err(SyscallError::EINVAL);
        }
        md.signal_set.mask = mask;
        process.replace_module(j, md);
    }
    proof {
        process.lemma_index_of(j as int);
    }
    if let UserOut::Mapped = old_ptr {
        Ok(Some(old_mask))
    } else {
        Ok(None)
    }
}

/// Where a thread in `sigsuspend` stands.
#[derive(Clone, Copy, Debug, PartialEq, Eq, Structural)]
pub enum SuspendStep {
    /// The call is over and fails with `EINTR`.
    Interrupted,
    /// No signal can be delivered yet: give up the CPU and poll again.
    Wait,
}

/// Starts `sigsuspend` on thread `tid` with the blocked set `mask`. Inside a
/// handler the call ends at once and changes nothing. A mask that would
/// block `SIGKILL` or `SIGSTOP` is refused: the call ends at once too, with
/// the mask left as it was. Otherwise the mask is installed, and the call
/// ends as soon as a signal can be delivered. However it ends, the call
/// fails with `EINTR`.
pub fn syscall_sigsuspend(process: &mut ProcessSignals, tid: u64, mask: u64) -> (r: SuspendStep)
    requires
        old(process).wf(),
        old(process).has_thread(tid),
    ensures
        final(process).wf(),
        final(process).pid == old(process).pid,
        final(process).main_tid == old(process).main_tid,
        final(process).handler == old(process).handler,
        old(process).module(tid).last_trap_frame_for_signal is Some ==> r == SuspendStep::Interrupted
            && final(process).signal_modules@ == old(process).signal_modules@,
        old(process).module(tid).last_trap_frame_for_signal is None && blocks_unblockable(mask) ==> r
            == SuspendStep::Interrupted && final(process).signal_modules@ == old(process).signal_modules@,
        old(process).module(tid).last_trap_frame_for_signal is None && !blocks_unblockable(mask) ==> {
            &&& final(process).modules_changed(
                old(process).signal_modules@,
                tid,
                |md: SignalModule| with_mask(md, mask),
            )
            &&& r == if final(process).module(tid).signal_set.next_signal() is Some {
                SuspendStep::Interrupted
            } else {
                SuspendStep::Wait
            }
        },
{
    let j = match process.find_module(tid) {
        Some(j) => j,
        None => {
            return SuspendStep::Interrupted;
        },
    };
    let mut md = process.signal_modules[j];
    if md.last_trap_frame_for_signal.is_some() {
        return SuspendStep::Interrupted;
    }
    if blocks_kill_or_stop(mask) {
        return SuspendStep::Interrupted;
    }
    md.signal_set.mask = mask;
    process.replace_module(j, md);
    proof {
        process.lemma_index_of(j as int);
    }
    if md.signal_set.find_signal().is_some() {
        SuspendStep::Interrupted
    } else {
        SuspendStep::Wait
    }
}

/// Polls a thread in `sigsuspend`: the call ends once a signal can be
/// delivered to it, or once any thread of its process has a signal
/// pending.
pub fn sigsuspend_poll(process: &ProcessSignals, tid: u64) -> (r: SuspendStep)
    requires
        process.wf(),
        process.has_thread(tid),
    ensures
        r == if process.module(tid).signal_set.next_signal() is Some || process.has_pending() {
            SuspendStep::Interrupted
        } else {
            SuspendStep::Wait
        },
{
    let j = match process.find_module(tid) {
        Some(j) => j,
        None => {
            return SuspendStep::Interrupted;
        },
    };
    if process.signal_modules[j].signal_set.find_signal().is_some() || process.have_signals() {
        SuspendStep::Interrupted
    } else {
        SuspendStep::Wait
    }
}


/// Leaves the handler that runs on thread `tid`: hands back the frame saved
/// when the signal was delivered and empties the slot, for the caller to
/// resume it. Outside a handler there is nothing to go back to, and the
/// call is refused with `EINVAL`.
pub fn syscall_sigreturn(process: &mut ProcessSignals, tid: u64) -> (r: Result<TrapFrame, SyscallError>)
    requires
        old(process).wf(),
        old(process).has_thread(tid),
    ensures
        final(process).wf(),
        final(process).pid == old(process).pid,
        final(process).main_tid == old(process).main_tid,
        final(process).handler == old(process).handler,
        match old(process).module(tid).last_trap_frame_for_signal {
            Some(f) => r == Ok::<TrapFrame, SyscallError>(f) && final(process).modules_changed(
                old(process).signal_modules@,
                tid,
                |md: SignalModule| SignalModule { last_trap_frame_for_signal: None, ..md },
            ),
            None => r == Err::<TrapFrame, SyscallError>(SyscallError::EINVAL)
                && final(process).signal_modules@ == old(process).signal_modules@,
        },
{
    let j = match process.find_module(tid) {
        Some(j) => j,
        None => {
            return Err(SyscallError::EINVAL);
        },
    };
    let mut md = process.signal_modules[j];
    match md.last_trap_frame_for_signal {
        Some(f) => {
            md.last_trap_frame_for_signal = None;
            process.replace_module(j, md);
            Ok(f)
        },
        None => Err(SyscallError::EINVAL),
    }
}

/// `m` once signal `signum` was delivered to it from the frame `frame`.
pub open spec fn delivered(m: SignalModule, signum: u64, frame: TrapFrame) -> SignalModule {
    SignalModule {
        signal_set: SignalSet { pending: m.signal_set.pending & !sig_bit(signum), ..m.signal_set },
        last_trap_frame_for_signal: Some(frame),
        ..m
    }
}

/// The check on the way back to user space. When thread `tid` runs no
/// handler and a signal can be delivered to it, the lowest such signal
/// leaves the pending set, `frame` is saved for `sigreturn`, and the signal
/// is handed back with its action, for the caller to run it.
pub fn deliver_signal(process: &mut ProcessSignals, tid: u64, frame: TrapFrame) -> (r: Option<(u64, SigAction)>)
    requires
        old(process).wf(),
        old(process).has_thread(tid),
    ensures
        final(process).wf(),
        final(process).pid == old(process).pid,
        final(process).main_tid == old(process).main_tid,
        final(process).handler == old(process).handler,
        match (old(process).module(tid).last_trap_frame_for_signal, old(process).module(tid).signal_set.next_signal()) {
            (None, Some(s)) => r == Some((s, old(process).handler.action(s as int)))
                && final(process).modules_changed(
                old(process).signal_modules@,
                tid,
                |md: SignalModule| delivered(md, s, frame),
            ),
            _ => r is None && final(process).signal_modules@ == old(process).signal_modules@,
        },
{
    let j = match process.find_module(tid) {
        Some(j) => j,
        None => {
            return None;
        },
    };
    let mut md = process.signal_modules[j];
    if md.last_trap_frame_for_signal.is_some() {
        return None;
    }
    match md.signal_set.find_signal() {
        Some(s) => {
            md.signal_set.clear_pending(s);
            md.last_trap_frame_for_signal = Some(frame);
            process.replace_module(j, md);
            let action = process.handler.actions[(s - 1) as usize];
            Some((s, action))
        },
        None => None,
    }
}

/// Raises `signum` on thread `tid`, in whichever process it lives; no two
/// processes share a pid or a tid. Finding no such thread is no error.
pub fn syscall_tkill(processes: &mut Vec<ProcessSignals>, tid: isize, signum: isize) -> (r: SyscallResult)
    requires
        forall|i: int| 0 <= i < old(processes)@.len() ==> (#[trigger] old(processes)@[i]).wf(),
        ids_unique(old(processes)@),
    ensures
        ids_unique(final(processes)@),
        r == if tid > 0 && signum > 0 {
            Ok::<isize, SyscallError>(0)
        } else {
            Err::<isize, SyscallError>(SyscallError::EINVAL)
        },
        final(processes)@.len() == old(processes)@.len(),
        forall|i: int|
            0 <= i < old(processes)@.len() ==> {
                let (p, q) = (old(processes)@[i], #[trigger] final(processes)@[i]);
                &&& q.wf()
                &&& q.pid == p.pid && q.main_tid == p.main_tid && q.handler == p.handler
                &&& if r is Ok {
                    q.modules_changed(p.signal_modules@, tid as u64, |m| module_raised(m, signum as u64))
                } else {
                    q.signal_modules@ == p.signal_modules@
                }
            },
{
    if !(tid > 0 && signum > 0) {
        return Err(SyscallError::EINVAL);
    }
    let n = processes.len();
    let mut i: usize = 0;
    while i < n
        invariant
            i <= n,
            n == old(processes)@.len(),
            processes@.len() == n,
            tid > 0 && signum > 0,
            forall|k: int| i <= k < n ==> processes@[k] == old(processes)@[k],
            forall|k: int| 0 <= k < n ==> (#[trigger] old(processes)@[k]).wf(),
            forall|k: int|
                0 <= k < i ==> {
                    let (p, q) = (old(processes)@[k], #[trigger] processes@[k]);
                    &&& q.wf()
                    &&& q.pid == p.pid && q.main_tid == p.main_tid && q.handler == p.handler
                    &&& q.modules_changed(p.signal_modules@, tid as u64, |m| module_raised(m, signum as u64))
                },
        decreases n - i,
    {
        let mut p = processes.remove(i);
        p.send_signal_to_thread(tid as u64, signum as u64);
        processes.insert(i, p);
        i = i + 1;
    }
    Ok(0)
}

/// Raises `signum` on the main thread of process `pid`. `pid == 0`, which
/// would name a process group, is refused with `ESRCH`; other non-positive
/// arguments are malformed. No two processes share a pid or a tid. Finding
/// no such process is no error.
pub fn syscall_kill(processes: &mut Vec<ProcessSignals>, pid: isize, signum: isize) -> (r: SyscallResult)
    requires
        forall|i: int| 0 <= i < old(processes)@.len() ==> (#[trigger] old(processes)@[i]).wf(),
        ids_unique(old(processes)@),
    ensures
        ids_unique(final(processes)@),
        r == if pid > 0 && signum > 0 {
            Ok::<isize, SyscallError>(0)
        } else if pid == 0 {
            Err::<isize, SyscallError>(SyscallError::ESRCH)
        } else {
            Err::<isize, SyscallError>(SyscallError::EINVAL)
        },
        final(processes)@.len() == old(processes)@.len(),
        forall|i: int|
            0 <= i < old(processes)@.len() ==> {
                let (p, q) = (old(processes)@[i], #[trigger] final(processes)@[i]);
                &&& q.wf()
                &&& q.pid == p.pid && q.main_tid == p.main_tid && q.handler == p.handler
                &&& if r is Ok && p.pid == pid as u64 {
                    q.modules_changed(p.signal_modules@, p.main_tid, |m| module_raised(m, signum as u64))
                } else {
                    q.signal_modules@ == p.signal_modules@
                }
            },
{
    if !(pid > 0 && signum > 0) {
        if pid == 0 {
            return Err(SyscallError::ESRCH);
        }
        return Err(SyscallError::EINVAL);
    }
    let n = processes.len();
    let mut i: usize = 0;
    while i < n
        invariant
            i <= n,
            n == old(processes)@.len(),
            processes@.len() == n,
            pid > 0 && signum > 0,
            forall|k: int| i <= k < n ==> processes@[k] == old(processes)@[k],
            forall|k: int| 0 <= k < n ==> (#[trigger] old(processes)@[k]).wf(),
            forall|k: int|
                0 <= k < i ==> {
                    let (p, q) = (old(processes)@[k], #[trigger] processes@[k]);
                    &&& q.wf()
                    &&& q.pid == p.pid && q.main_tid == p.main_tid && q.handler == p.handler
                    &&& if p.pid == pid as u64 {
                        q.modules_changed(p.signal_modules@, p.main_tid, |m| module_raised(m, signum as u64))
                    } else {
                        q.signal_modules@ == p.signal_modules@
                    }
                },
        decreases n - i,
    {
        if processes[i].pid == pid as u64 {
            let mut p = processes.remove(i);
            let main_tid = p.main_tid;
            p.send_signal_to_thread(main_tid, signum as u64);
            processes.insert(i, p);
        }
        i = i + 1;
    }
    Ok(0)
}

} // verus!
