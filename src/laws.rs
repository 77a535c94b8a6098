//! Properties that relate several calls.

use vstd::prelude::*;
use crate::action::SigAction;
use crate::process::{SignalModule, TrapFrame, raised, module_raised};
use crate::signal_set::{SignalSet, SIGKILL, SIGSTOP, valid_signum, sig_bit, has_sig, has_bit, first_from};
use crate::syscall::{SigMaskFlag, masked, sigaction_outcome, delivered};

verus! {

/// Setting the action of a catchable signal and then asking for the old
/// action of that signal gives back exactly the action that was set.
pub proof fn sigaction_round_trip(table: Seq<SigAction>, signum: usize, action: SigAction)
    requires
        table.len() == 64,
        valid_signum(signum as int),
        signum != SIGKILL,
        signum != SIGSTOP,
    ensures
        sigaction_outcome(table[signum - 1], signum, false) == Ok::<Option<SigAction>, crate::syscall::SyscallError>(None),
        sigaction_outcome(table.update(signum - 1, action)[signum - 1], signum, true) == Ok::<
            Option<SigAction>,
            crate::syscall::SyscallError,
        >(Some(action)),
{
}

/// Two `sigaction` calls on different catchable signals both succeed, and
/// each entry then holds whole the action written to it, whichever call
/// came first.
pub proof fn sigaction_distinct_signals(
    table: Seq<SigAction>,
    s1: usize,
    a1: SigAction,
    s2: usize,
    a2: SigAction,
)
    requires
        table.len() == 64,
        valid_signum(s1 as int),
        valid_signum(s2 as int),
        s1 != s2,
        s1 != SIGKILL && s1 != SIGSTOP,
        s2 != SIGKILL && s2 != SIGSTOP,
    ensures
        sigaction_outcome(table[s1 - 1], s1, false) is Ok,
        sigaction_outcome(table[s2 - 1], s2, false) is Ok,
        table.update(s1 - 1, a1).update(s2 - 1, a2)[s1 - 1] == a1,
        table.update(s1 - 1, a1).update(s2 - 1, a2)[s2 - 1] == a2,
        table.update(s1 - 1, a1).update(s2 - 1, a2) == table.update(s2 - 1, a2).update(s1 - 1, a1),
{
    assert(table.update(s1 - 1, a1).update(s2 - 1, a2) =~= table.update(s2 - 1, a2).update(s1 - 1, a1));
}

/// Blocking a set and then unblocking it gives back the mask as it was,
/// when none of the set was blocked before.
pub proof fn block_then_unblock(mask: u64, set: u64)
    requires
        mask & set == 0,
    ensures
        masked(SigMaskFlag::SigUnblock, masked(SigMaskFlag::SigBlock, mask, set), set) == mask,
{
    assert((mask | set) & !set == mask) by (bit_vector)
        requires
            mask & set == 0,
    ;
}

/// A signal that a thread does not block can be delivered to it once it
/// is raised on it.
pub proof fn raise_unblocked_is_deliverable(s: SignalSet, signum: u64)
    requires
        valid_signum(signum as int),
        !has_sig(s.mask, signum),
    ensures
        has_sig(raised(s, signum).deliverable(), signum),
{
    let k = (signum - 1) as u64;
    let (p, m) = (s.pending, s.mask);
    assert(((p | (1u64 << k)) & !m) & (1u64 << k) != 0) by (bit_vector)
        requires
            m & (1u64 << k) == 0,
            k < 64,
    ;
}

proof fn raised_bit(p: u64, m: u64, k: u64, i: u64)
    requires
        k < 64,
        i < 64,
        m & (1u64 << k) == 0,
    ensures
        has_bit((p | (1u64 << k)) & !m, i) <==> (has_bit(p & !m, i) || i == k),
{
    assert(((p | (1u64 << k)) & !m) & (1u64 << i) != 0 <==> ((p & !m) & (1u64 << i) != 0 || i == k))
        by (bit_vector)
        requires
            k < 64,
            i < 64,
            m & (1u64 << k) == 0,
    ;
}

proof fn first_from_lowest(x: u64, i: u64, k: u64)
    requires
        i <= k < 64,
        has_bit(x, k),
        forall|j: u64| i <= j < k ==> !has_bit(x, j),
    ensures
        first_from(x, i) == Some((k + 1) as u64),
    decreases k - i,
{
    if i < k {
        first_from_lowest(x, (i + 1) as u64, k);
    }
}

proof fn first_from_found(x: u64, i: u64)
    ensures
        first_from(x, i) matches Some(n) ==> 1 <= n <= 64 && has_bit(x, (n - 1) as u64),
    decreases 64 - i,
{
    if i < 64 && !has_bit(x, i) {
        first_from_found(x, (i + 1) as u64);
    }
}

/// A thread that does not block `signum`, and to which no lower signal can
/// be delivered, finds `signum` as its next signal once `signum` is raised
/// on it.
pub proof fn raise_unblocked_is_next(s: SignalSet, signum: u64)
    requires
        valid_signum(signum as int),
        !has_sig(s.mask, signum),
        forall|j: u64| 1 <= j < signum ==> !has_sig(s.deliverable(), j),
    ensures
        raised(s, signum).next_signal() == Some(signum),
{
    let k = (signum - 1) as u64;
    let (p, m) = (s.pending, s.mask);
    let d = raised(s, signum).deliverable();
    assert(d == (p | (1u64 << k)) & !m);
    raised_bit(p, m, k, k);
    assert forall|j: u64| 0 <= j < k implies !has_bit(d, j) by {
        raised_bit(p, m, k, j);
        assert(!has_sig(s.deliverable(), (j + 1) as u64));
    }
    first_from_lowest(d, 0, k);
}

/// Raising a signal that a thread blocks leaves it pending and the mask as
/// it was; the signal is not the thread's next one, and no handler starts.
pub proof fn raise_blocked_stays_pending(m: SignalModule, signum: u64)
    requires
        valid_signum(signum as int),
        has_sig(m.signal_set.mask, signum),
    ensures
        has_sig(module_raised(m, signum).signal_set.pending, signum),
        module_raised(m, signum).signal_set.mask == m.signal_set.mask,
        module_raised(m, signum).signal_set.next_signal() != Some(signum),
        module_raised(m, signum).last_trap_frame_for_signal == m.last_trap_frame_for_signal,
{
    let k = (signum - 1) as u64;
    let (p, mask) = (m.signal_set.pending, m.signal_set.mask);
    let d = module_raised(m, signum).signal_set.deliverable();
    assert((p | (1u64 << k)) & (1u64 << k) != 0 && ((p | (1u64 << k)) & !mask) & (1u64 << k) == 0)
        by (bit_vector)
        requires
            k < 64,
            mask & (1u64 << k) != 0,
    ;
    first_from_found(d, 0);
}

/// Raising the same signal twice leaves the thread as raising it once.
pub proof fn raise_twice_is_raise_once(s: SignalSet, signum: u64)
    ensures
        raised(raised(s, signum), signum) == raised(s, signum),
{
    if valid_signum(signum as int) {
        let (p, b) = (s.pending, sig_bit(signum));
        assert((p | b) | b == p | b) by (bit_vector);
    }
}

/// Unblocking a signal removes it from the mask.
pub proof fn unblock_removes_signal(mask: u64, signum: u64)
    requires
        valid_signum(signum as int),
    ensures
        !has_sig(masked(SigMaskFlag::SigUnblock, mask, sig_bit(signum)), signum),
{
    let k = (signum - 1) as u64;
    assert((mask & !(1u64 << k)) & (1u64 << k) == 0) by (bit_vector);
}

/// At its next delivery point, a thread outside any handler to which
/// `signum` is the lowest signal that can be delivered gets `signum`: it
/// leaves the pending set, the mask stays, and the interrupted frame is
/// saved for the return from the handler.
pub proof fn lowest_deliverable_is_delivered(m: SignalModule, signum: u64, frame: TrapFrame)
    requires
        valid_signum(signum as int),
        has_sig(m.signal_set.deliverable(), signum),
        forall|j: u64| 1 <= j < signum ==> !has_sig(m.signal_set.deliverable(), j),
    ensures
        m.signal_set.next_signal() == Some(signum),
        !has_sig(delivered(m, signum, frame).signal_set.pending, signum),
        delivered(m, signum, frame).signal_set.mask == m.signal_set.mask,
        delivered(m, signum, frame).last_trap_frame_for_signal == Some(frame),
{
    let k = (signum - 1) as u64;
    let d = m.signal_set.deliverable();
    assert forall|j: u64| 0 <= j < k implies !has_bit(d, j) by {
        assert(!has_sig(d, (j + 1) as u64));
    }
    first_from_lowest(d, 0, k);
    let p = m.signal_set.pending;
    assert((p & !(1u64 << k)) & (1u64 << k) == 0) by (bit_vector);
}

} // verus!
