use syscall_task::action::{SigAction, SignalHandler, SIG_DFL, SIG_IGN};
use syscall_task::batch::get_args;
use syscall_task::process::{are_disjoint, ids_are_unique, ProcessSignals, SignalModule, TrapFrame};
use syscall_task::signal_set::{SignalSet, SIGKILL, SIGSTOP};
use syscall_task::syscall::{
    action_is_fixed, deliver_signal, sigsuspend_poll, syscall_kill, syscall_sigaction, syscall_sigprocmask,
    syscall_sigreturn, syscall_sigsuspend, syscall_tkill, SigMaskFlag, SuspendStep, SyscallError,
    UserIn, UserOut, SIGSET_SIZE_IN_BYTE,
};

const SIGINT: u64 = 2;
const SIGUSR1: u64 = 10;
const SIGUSR2: u64 = 12;
const SIGTERM: u64 = 15;

fn bit(signum: u64) -> u64 {
    1u64 << (signum - 1)
}

fn module(p: &ProcessSignals, tid: u64) -> SignalModule {
    let j = p.find_module(tid).expect("thread is registered");
    p.signal_modules[j]
}

fn handler_at(addr: usize) -> SigAction {
    SigAction { sa_handler: addr, sa_flags: 0x4000000, sa_restorer: 0x5000, sa_mask: bit(SIGINT) }
}

fn frame() -> TrapFrame {
    TrapFrame { pc: 0x1000, sp: 0x7fff_0000, a0: 42 }
}

#[test]
fn sigaction_refuses_kill_and_stop() {
    let mut p = ProcessSignals::new(1, 1);
    for signum in [SIGKILL, SIGSTOP] {
        let r = syscall_sigaction(&mut p, signum as usize, Some(handler_at(0x4000)), true);
        assert_eq!(r, Err(SyscallError::EPERM));
        assert_eq!(p.handler.get_action(signum as usize), Some(SigAction::default_action()));
    }
}

#[test]
fn sigaction_round_trip() {
    let mut p = ProcessSignals::new(1, 1);
    let a = handler_at(0x4000);
    assert_eq!(syscall_sigaction(&mut p, SIGUSR1 as usize, Some(a), false), Ok(None));
    assert_eq!(syscall_sigaction(&mut p, SIGUSR1 as usize, None, true), Ok(Some(a)));
    assert_eq!(syscall_sigaction(&mut p, SIGUSR1 as usize, None, true), Ok(Some(a)));
}

#[test]
fn sigaction_returns_replaced_action() {
    let mut p = ProcessSignals::new(1, 1);
    let a = handler_at(0x4000);
    let b = SigAction { sa_handler: SIG_IGN, sa_flags: 0, sa_restorer: 0, sa_mask: 0 };
    syscall_sigaction(&mut p, SIGTERM as usize, Some(a), false).unwrap();
    assert_eq!(syscall_sigaction(&mut p, SIGTERM as usize, Some(b), true), Ok(Some(a)));
    assert_eq!(p.handler.get_action(SIGTERM as usize), Some(b));
}

#[test]
fn sigaction_default_old_action() {
    let mut p = ProcessSignals::new(1, 1);
    let old = syscall_sigaction(&mut p, SIGINT as usize, None, true).unwrap().unwrap();
    assert_eq!(old.sa_handler, SIG_DFL);
}

#[test]
fn sigaction_unknown_signal_succeeds() {
    let mut p = ProcessSignals::new(1, 1);
    assert_eq!(syscall_sigaction(&mut p, 0, Some(handler_at(1)), true), Ok(None));
    assert_eq!(syscall_sigaction(&mut p, 65, Some(handler_at(1)), true), Ok(None));
    assert_eq!(syscall_sigaction(&mut p, 0, None, false), Ok(None));
    for signum in 1..=64usize {
        assert_eq!(p.handler.get_action(signum), Some(SigAction::default_action()));
    }
    assert_eq!(syscall_sigaction(&mut p, 64, None, true), Ok(Some(SigAction::default_action())));
}

#[test]
fn sigaction_two_threads_distinct_signals() {
    let mut p = ProcessSignals::new(1, 1);
    p.add_thread(2);
    let a1 = handler_at(0x4000);
    let a2 = SigAction { sa_handler: 0x8000, sa_flags: 1, sa_restorer: 2, sa_mask: 3 };
    assert_eq!(syscall_sigaction(&mut p, SIGUSR1 as usize, Some(a1), false), Ok(None));
    assert_eq!(syscall_sigaction(&mut p, SIGUSR2 as usize, Some(a2), false), Ok(None));
    assert_eq!(syscall_sigaction(&mut p, SIGUSR1 as usize, None, true), Ok(Some(a1)));
    assert_eq!(syscall_sigaction(&mut p, SIGUSR2 as usize, None, true), Ok(Some(a2)));
}

#[test]
fn sigprocmask_wrong_size_is_einval() {
    let mut p = ProcessSignals::new(1, 1);
    for size in [0usize, 4, 16, 128] {
        for old in [UserOut::Null, UserOut::Unmapped, UserOut::Mapped] {
            for new in [UserIn::Null, UserIn::Unmapped, UserIn::Value(7u64)] {
                let r = syscall_sigprocmask(&mut p, 1, SigMaskFlag::SigSetmask, new, old, size);
                assert_eq!(r, Err(SyscallError::EINVAL));
            }
        }
    }
    assert_eq!(module(&p, 1).signal_set.mask, 0);
}

#[test]
fn sigprocmask_unmapped_pointers() {
    let mut p = ProcessSignals::new(1, 1);
    let r = syscall_sigprocmask(&mut p, 1, SigMaskFlag::SigBlock, UserIn::Value(5), UserOut::Unmapped, 8);
    assert_eq!(r, Err(SyscallError::EFAULT));
    let r = syscall_sigprocmask(&mut p, 1, SigMaskFlag::SigBlock, UserIn::Unmapped, UserOut::Mapped, 8);
    assert_eq!(r, Err(SyscallError::EPERM));
    let r = syscall_sigprocmask(&mut p, 1, SigMaskFlag::SigBlock, UserIn::Unmapped, UserOut::Unmapped, 8);
    assert_eq!(r, Err(SyscallError::EFAULT));
    assert_eq!(module(&p, 1).signal_set.mask, 0);
}

#[test]
fn sigprocmask_flags() {
    let mut p = ProcessSignals::new(1, 1);
    let size = SIGSET_SIZE_IN_BYTE;
    assert_eq!(syscall_sigprocmask(&mut p, 1, SigMaskFlag::SigBlock, UserIn::Value(0b1010), UserOut::Mapped, size), Ok(Some(0)));
    assert_eq!(module(&p, 1).signal_set.mask, 0b1010);
    assert_eq!(syscall_sigprocmask(&mut p, 1, SigMaskFlag::SigBlock, UserIn::Value(0b0110), UserOut::Null, size), Ok(None));
    assert_eq!(module(&p, 1).signal_set.mask, 0b1110);
    assert_eq!(syscall_sigprocmask(&mut p, 1, SigMaskFlag::SigUnblock, UserIn::Value(0b0011), UserOut::Mapped, size), Ok(Some(0b1110)));
    assert_eq!(module(&p, 1).signal_set.mask, 0b1100);
    assert_eq!(syscall_sigprocmask(&mut p, 1, SigMaskFlag::SigSetmask, UserIn::Value(0b1), UserOut::Mapped, size), Ok(Some(0b1100)));
    assert_eq!(module(&p, 1).signal_set.mask, 0b1);
    assert_eq!(syscall_sigprocmask(&mut p, 1, SigMaskFlag::SigSetmask, UserIn::Null, UserOut::Mapped, size), Ok(Some(0b1)));
    assert_eq!(module(&p, 1).signal_set.mask, 0b1);
}

#[test]
fn sigprocmask_only_touches_caller() {
    let mut p = ProcessSignals::new(1, 1);
    p.add_thread(2);
    syscall_sigprocmask(&mut p, 2, SigMaskFlag::SigSetmask, UserIn::Value(0b1010), UserOut::Null, 8).unwrap();
    assert_eq!(module(&p, 2).signal_set.mask, 0b1010);
    assert_eq!(module(&p, 1).signal_set.mask, 0);
}

#[test]
fn sigprocmask_refuses_blocking_kill_and_stop() {
    let mut p = ProcessSignals::new(1, 1);
    syscall_sigprocmask(&mut p, 1, SigMaskFlag::SigSetmask, UserIn::Value(0b11), UserOut::Null, 8).unwrap();
    for m in [bit(SIGKILL), bit(SIGSTOP), bit(SIGKILL) | bit(SIGINT), u64::MAX] {
        for flag in [SigMaskFlag::SigBlock, SigMaskFlag::SigSetmask] {
            let r = syscall_sigprocmask(&mut p, 1, flag, UserIn::Value(m), UserOut::Mapped, 8);
            assert_eq!(r, Err(SyscallError::EINVAL));
            assert_eq!(module(&p, 1).signal_set.mask, 0b11);
        }
    }
    let r = syscall_sigprocmask(&mut p, 1, SigMaskFlag::SigUnblock, UserIn::Value(u64::MAX), UserOut::Mapped, 8);
    assert_eq!(r, Ok(Some(0b11)));
    assert_eq!(module(&p, 1).signal_set.mask, 0);
}

#[test]
fn sigprocmask_size_checked_before_kill_bit() {
    let mut p = ProcessSignals::new(1, 1);
    let r = syscall_sigprocmask(&mut p, 1, SigMaskFlag::SigBlock, UserIn::Value(bit(SIGKILL)), UserOut::Unmapped, 4);
    assert_eq!(r, Err(SyscallError::EINVAL));
    let r = syscall_sigprocmask(&mut p, 1, SigMaskFlag::SigBlock, UserIn::Value(bit(SIGKILL)), UserOut::Unmapped, 8);
    assert_eq!(r, Err(SyscallError::EFAULT));
}

#[test]
fn block_then_unblock_restores_mask() {
    let mut p = ProcessSignals::new(1, 1);
    let before = 0b1000_0001u64;
    let set = 0b0110_0000u64;
    syscall_sigprocmask(&mut p, 1, SigMaskFlag::SigSetmask, UserIn::Value(before), UserOut::Null, 8).unwrap();
    syscall_sigprocmask(&mut p, 1, SigMaskFlag::SigBlock, UserIn::Value(set), UserOut::Null, 8).unwrap();
    assert_eq!(module(&p, 1).signal_set.mask, before | set);
    syscall_sigprocmask(&mut p, 1, SigMaskFlag::SigUnblock, UserIn::Value(set), UserOut::Null, 8).unwrap();
    assert_eq!(module(&p, 1).signal_set.mask, before);
}

#[test]
fn pending_survives_mask_change() {
    let mut p = ProcessSignals::new(1, 1);
    p.send_signal_to_thread(1, SIGINT);
    syscall_sigprocmask(&mut p, 1, SigMaskFlag::SigBlock, UserIn::Value(bit(SIGINT)), UserOut::Null, 8).unwrap();
    assert_eq!(module(&p, 1).signal_set.pending, bit(SIGINT));
    assert_eq!(module(&p, 1).signal_set.find_signal(), None);
}

#[test]
fn find_signal_lowest_unblocked() {
    let s = SignalSet { pending: bit(3) | bit(5) | bit(64), mask: bit(3) };
    assert_eq!(s.find_signal(), Some(5));
    let s = SignalSet { pending: bit(64), mask: 0 };
    assert_eq!(s.find_signal(), Some(64));
    let s = SignalSet { pending: 0, mask: 0 };
    assert_eq!(s.find_signal(), None);
    let s = SignalSet { pending: u64::MAX, mask: u64::MAX };
    assert_eq!(s.find_signal(), None);
    let s = SignalSet { pending: u64::MAX, mask: 0 };
    assert_eq!(s.find_signal(), Some(1));
}

#[test]
fn signal_set_add_and_clear() {
    let mut s = SignalSet::new();
    s.try_add_signal(0);
    s.try_add_signal(65);
    assert_eq!(s.pending, 0);
    s.try_add_signal(SIGTERM);
    s.try_add_signal(1);
    assert_eq!(s.pending, bit(SIGTERM) | 1);
    s.clear_pending(1);
    assert_eq!(s.pending, bit(SIGTERM));
}

#[test]
fn tkill_self_makes_signal_deliverable() {
    let mut ps = vec![ProcessSignals::new(7, 70)];
    syscall_sigprocmask(&mut ps[0], 70, SigMaskFlag::SigSetmask, UserIn::Value(bit(SIGINT)), UserOut::Null, 8).unwrap();
    assert_eq!(syscall_tkill(&mut ps, 70, SIGUSR1 as isize), Ok(0));
    assert_eq!(module(&ps[0], 70).signal_set.find_signal(), Some(SIGUSR1));
}

#[test]
fn tkill_bad_arguments() {
    let mut ps = vec![ProcessSignals::new(7, 70)];
    assert_eq!(syscall_tkill(&mut ps, 0, 2), Err(SyscallError::EINVAL));
    assert_eq!(syscall_tkill(&mut ps, -3, 2), Err(SyscallError::EINVAL));
    assert_eq!(syscall_tkill(&mut ps, 70, 0), Err(SyscallError::EINVAL));
    assert_eq!(syscall_tkill(&mut ps, 70, -1), Err(SyscallError::EINVAL));
    assert_eq!(module(&ps[0], 70).signal_set.pending, 0);
}

#[test]
fn tkill_unknown_thread_is_ok() {
    let mut ps = vec![ProcessSignals::new(7, 70)];
    assert_eq!(syscall_tkill(&mut ps, 99, 2), Ok(0));
    assert_eq!(module(&ps[0], 70).signal_set.pending, 0);
}

#[test]
fn tkill_reaches_thread_in_other_process() {
    let mut ps = vec![ProcessSignals::new(7, 70), ProcessSignals::new(8, 80)];
    ps[1].add_thread(81);
    assert_eq!(syscall_tkill(&mut ps, 81, SIGTERM as isize), Ok(0));
    assert_eq!(module(&ps[1], 81).signal_set.pending, bit(SIGTERM));
    assert_eq!(module(&ps[1], 80).signal_set.pending, 0);
    assert_eq!(module(&ps[0], 70).signal_set.pending, 0);
}

#[test]
fn kill_argument_errors() {
    let mut ps = vec![ProcessSignals::new(7, 70)];
    for s in [1isize, 9, 64] {
        assert_eq!(syscall_kill(&mut ps, 0, s), Err(SyscallError::ESRCH));
    }
    assert_eq!(syscall_kill(&mut ps, -1, SIGINT as isize), Err(SyscallError::EINVAL));
    assert_eq!(syscall_kill(&mut ps, 7, 0), Err(SyscallError::EINVAL));
    assert_eq!(syscall_kill(&mut ps, 7, -4), Err(SyscallError::EINVAL));
    assert_eq!(module(&ps[0], 70).signal_set.pending, 0);
}

#[test]
fn kill_goes_to_main_thread() {
    let mut ps = vec![ProcessSignals::new(7, 70), ProcessSignals::new(8, 80)];
    ps[0].add_thread(71);
    assert_eq!(syscall_kill(&mut ps, 7, SIGUSR2 as isize), Ok(0));
    assert_eq!(module(&ps[0], 70).signal_set.pending, bit(SIGUSR2));
    assert_eq!(module(&ps[0], 71).signal_set.pending, 0);
    assert_eq!(module(&ps[1], 80).signal_set.pending, 0);
}

#[test]
fn kill_missing_process_is_ok() {
    let mut ps = vec![ProcessSignals::new(7, 70)];
    assert_eq!(syscall_kill(&mut ps, 12, SIGUSR2 as isize), Ok(0));
    assert_eq!(syscall_kill(&mut ps, 7, 100), Ok(0));
    assert_eq!(module(&ps[0], 70).signal_set.pending, 0);
}

#[test]
fn delivery_saves_frame_and_clears_pending() {
    let mut p = ProcessSignals::new(1, 1);
    let a = handler_at(0x4000);
    syscall_sigaction(&mut p, SIGTERM as usize, Some(a), false).unwrap();
    p.send_signal_to_thread(1, SIGTERM);
    p.send_signal_to_thread(1, SIGINT);
    let got = deliver_signal(&mut p, 1, frame());
    assert_eq!(got, Some((SIGINT, SigAction::default_action())));
    assert_eq!(module(&p, 1).signal_set.pending, bit(SIGTERM));
    assert_eq!(module(&p, 1).last_trap_frame_for_signal, Some(frame()));
    assert_eq!(deliver_signal(&mut p, 1, frame()), None);
    assert_eq!(syscall_sigreturn(&mut p, 1), Ok(frame()));
    assert_eq!(deliver_signal(&mut p, 1, frame()), Some((SIGTERM, a)));
}

#[test]
fn sigreturn_outside_handler_is_refused() {
    let mut p = ProcessSignals::new(1, 1);
    assert_eq!(syscall_sigreturn(&mut p, 1), Err(SyscallError::EINVAL));
}

#[test]
fn sigreturn_clears_slot() {
    let mut p = ProcessSignals::new(1, 1);
    p.send_signal_to_thread(1, SIGINT);
    deliver_signal(&mut p, 1, frame()).unwrap();
    assert_eq!(syscall_sigreturn(&mut p, 1).map(|f| f.a0), Ok(42));
    assert_eq!(module(&p, 1).last_trap_frame_for_signal, None);
    assert_eq!(syscall_sigreturn(&mut p, 1), Err(SyscallError::EINVAL));
}

#[test]
fn sigsuspend_nested_returns_at_once() {
    let mut p = ProcessSignals::new(1, 1);
    syscall_sigprocmask(&mut p, 1, SigMaskFlag::SigSetmask, UserIn::Value(0b100), UserOut::Null, 8).unwrap();
    p.send_signal_to_thread(1, SIGINT);
    deliver_signal(&mut p, 1, frame()).unwrap();
    assert_eq!(syscall_sigsuspend(&mut p, 1, u64::MAX), SuspendStep::Interrupted);
    assert_eq!(module(&p, 1).signal_set.mask, 0b100);
}

#[test]
fn sigsuspend_waits_until_deliverable() {
    let mut p = ProcessSignals::new(1, 1);
    assert_eq!(syscall_sigsuspend(&mut p, 1, bit(SIGINT)), SuspendStep::Wait);
    assert_eq!(module(&p, 1).signal_set.mask, bit(SIGINT));
    assert_eq!(sigsuspend_poll(&p, 1), SuspendStep::Wait);
    p.send_signal_to_thread(1, SIGTERM);
    assert_eq!(sigsuspend_poll(&p, 1), SuspendStep::Interrupted);
}

#[test]
fn sigsuspend_blocked_pending_wakes_at_poll() {
    let mut p = ProcessSignals::new(1, 1);
    p.send_signal_to_thread(1, SIGINT);
    assert_eq!(syscall_sigsuspend(&mut p, 1, bit(SIGINT)), SuspendStep::Wait);
    assert_eq!(sigsuspend_poll(&p, 1), SuspendStep::Interrupted);
}

#[test]
fn sigsuspend_refuses_kill_or_stop_in_mask() {
    let mut p = ProcessSignals::new(1, 1);
    p.send_signal_to_thread(1, SIGINT);
    syscall_sigprocmask(&mut p, 1, SigMaskFlag::SigSetmask, UserIn::Value(bit(SIGINT)), UserOut::Null, 8).unwrap();
    assert_eq!(syscall_sigsuspend(&mut p, 1, bit(SIGSTOP)), SuspendStep::Interrupted);
    assert_eq!(syscall_sigsuspend(&mut p, 1, u64::MAX), SuspendStep::Interrupted);
    assert_eq!(module(&p, 1).signal_set.mask, bit(SIGINT));
}

#[test]
fn sigsuspend_poll_sees_other_threads() {
    let mut p = ProcessSignals::new(1, 1);
    p.add_thread(2);
    assert_eq!(syscall_sigsuspend(&mut p, 1, bit(SIGINT)), SuspendStep::Wait);
    p.send_signal_to_thread(2, SIGINT);
    assert_eq!(p.have_signals(), true);
    assert_eq!(sigsuspend_poll(&p, 1), SuspendStep::Interrupted);
}

#[test]
fn have_signals_counts_blocked() {
    let mut p = ProcessSignals::new(1, 1);
    p.add_thread(2);
    assert_eq!(p.have_signals(), false);
    assert_eq!(syscall_sigsuspend(&mut p, 1, bit(SIGINT)), SuspendStep::Wait);
    assert_eq!(sigsuspend_poll(&p, 1), SuspendStep::Wait);
    syscall_sigprocmask(&mut p, 2, SigMaskFlag::SigBlock, UserIn::Value(bit(SIGTERM)), UserOut::Null, 8).unwrap();
    p.send_signal_to_thread(2, SIGTERM);
    assert_eq!(p.have_signals(), true);
    assert_eq!(sigsuspend_poll(&p, 1), SuspendStep::Interrupted);
}

#[test]
fn registry_id_checks() {
    let mut ps = vec![ProcessSignals::new(7, 70), ProcessSignals::new(8, 80)];
    assert!(ids_are_unique(&ps));
    assert!(are_disjoint(&ps[0], &ps[1]));
    ps[1].add_thread(70);
    assert!(!ids_are_unique(&ps));
    let qs = vec![ProcessSignals::new(7, 70), ProcessSignals::new(7, 71)];
    assert!(!ids_are_unique(&qs));
    assert!(ids_are_unique(&Vec::new()));
}

#[test]
fn fixed_actions_and_handler_state() {
    assert!(action_is_fixed(SIGKILL as usize));
    assert!(action_is_fixed(SIGSTOP as usize));
    assert!(!action_is_fixed(SIGINT as usize));
    assert!(!action_is_fixed(0));
    let mut p = ProcessSignals::new(1, 1);
    assert!(!p.in_signal_handler(1));
    p.send_signal_to_thread(1, SIGINT);
    deliver_signal(&mut p, 1, frame()).unwrap();
    assert!(p.in_signal_handler(1));
}

#[test]
fn tkill_next_signal_with_lower_blocked_pending() {
    let mut ps = vec![ProcessSignals::new(7, 70)];
    syscall_sigprocmask(&mut ps[0], 70, SigMaskFlag::SigSetmask, UserIn::Value(bit(SIGINT)), UserOut::Null, 8).unwrap();
    ps[0].send_signal_to_thread(70, SIGINT);
    ps[0].send_signal_to_thread(70, SIGTERM);
    assert_eq!(syscall_tkill(&mut ps, 70, SIGUSR1 as isize), Ok(0));
    assert_eq!(module(&ps[0], 70).signal_set.find_signal(), Some(SIGUSR1));
}

#[test]
fn tkill_twice_same_as_once() {
    let mut ps = vec![ProcessSignals::new(7, 70)];
    syscall_tkill(&mut ps, 70, SIGUSR1 as isize).unwrap();
    let once = module(&ps[0], 70);
    syscall_tkill(&mut ps, 70, SIGUSR1 as isize).unwrap();
    assert_eq!(module(&ps[0], 70), once);
}

#[test]
fn sigsuspend_ends_when_already_deliverable() {
    let mut p = ProcessSignals::new(1, 1);
    p.send_signal_to_thread(1, SIGTERM);
    assert_eq!(syscall_sigsuspend(&mut p, 1, 0), SuspendStep::Interrupted);
}

#[test]
fn end_to_end_block_raise_unblock_deliver() {
    let mut ps = vec![ProcessSignals::new(5, 50)];
    let a = handler_at(0x4000);
    syscall_sigaction(&mut ps[0], SIGUSR1 as usize, Some(a), false).unwrap();
    syscall_sigprocmask(&mut ps[0], 50, SigMaskFlag::SigBlock, UserIn::Value(bit(SIGUSR1)), UserOut::Null, 8).unwrap();
    assert_eq!(syscall_tkill(&mut ps, 50, SIGUSR1 as isize), Ok(0));
    assert_eq!(module(&ps[0], 50).signal_set.pending & bit(SIGUSR1), bit(SIGUSR1));
    assert_eq!(deliver_signal(&mut ps[0], 50, frame()), None);
    assert_eq!(module(&ps[0], 50).last_trap_frame_for_signal, None);
    syscall_sigprocmask(&mut ps[0], 50, SigMaskFlag::SigUnblock, UserIn::Value(bit(SIGUSR1)), UserOut::Null, 8).unwrap();
    assert_eq!(deliver_signal(&mut ps[0], 50, frame()), Some((SIGUSR1, a)));
    assert_eq!(module(&ps[0], 50).signal_set.pending & bit(SIGUSR1), 0);
    assert_eq!(module(&ps[0], 50).last_trap_frame_for_signal, Some(frame()));
}

#[test]
fn threads_come_and_go() {
    let mut p = ProcessSignals::new(1, 1);
    p.add_thread(2);
    p.add_thread(3);
    assert_eq!(p.find_module(3), Some(2));
    p.remove_thread(2);
    assert_eq!(p.find_module(2), None);
    assert_eq!(p.find_module(3), Some(1));
    p.remove_thread(2);
    assert_eq!(p.signal_modules.len(), 2);
}

#[test]
fn handler_table_defaults() {
    let h = SignalHandler::new();
    assert_eq!(h.actions.len(), 64);
    assert_eq!(h.get_action(1), Some(SigAction::default_action()));
    assert_eq!(h.get_action(0), None);
}

#[test]
fn errno_values() {
    assert_eq!(SyscallError::EPERM.errno(), 1);
    assert_eq!(SyscallError::ESRCH.errno(), 3);
    assert_eq!(SyscallError::EINTR.errno(), 4);
    assert_eq!(SyscallError::EFAULT.errno(), 14);
    assert_eq!(SyscallError::EINVAL.errno(), 22);
}

fn words(line: &str) -> Vec<String> {
    get_args(line.as_bytes()).into_iter().map(|w| String::from_utf8(w).unwrap()).collect()
}

#[test]
fn get_args_plain() {
    assert_eq!(words("busybox sh busybox_testcode.sh"), vec!["busybox", "sh", "busybox_testcode.sh"]);
}

#[test]
fn get_args_extra_spaces() {
    assert_eq!(words("  a   b  "), vec!["a", "b"]);
    assert_eq!(words(""), Vec::<String>::new());
    assert_eq!(words("   "), Vec::<String>::new());
}

#[test]
fn get_args_quotes_keep_spaces() {
    assert_eq!(
        words("lmbench_all lmdd label=\"File /var/tmp/XXX write bandwidth:\" of=/var/tmp/XXX"),
        vec!["lmbench_all", "lmdd", "label=\"File /var/tmp/XXX write bandwidth:\"", "of=/var/tmp/XXX"]
    );
    assert_eq!(words("echo \"a b\" c"), vec!["echo", "\"a b\"", "c"]);
}
