//! Signal numbers and a thread's pending and blocked sets.

use vstd::prelude::*;

verus! {

/// Highest signal number.
pub const MAX_SIG: u64 = 64;

pub const SIGKILL: u64 = 9;

pub const SIGSTOP: u64 = 19;

/// Whether `signum` names a signal.
pub open spec fn valid_signum(signum: int) -> bool {
    1 <= signum <= MAX_SIG
}

/// The bit that stands for signal `signum` in a set.
pub open spec fn sig_bit(signum: u64) -> u64
    recommends
        1 <= signum <= 64,
{
    1u64 << ((signum - 1) as u64)
}

/// Whether `bits` holds the bit at position `i`.
pub open spec fn has_bit(bits: u64, i: u64) -> bool {
    bits & (1u64 << i) != 0
}

/// Whether the set `bits` holds signal `signum`.
pub open spec fn has_sig(bits: u64, signum: u64) -> bool {
    1 <= signum <= 64 && has_bit(bits, (signum - 1) as u64)
}

/// Whether the mask `mask` would block `SIGKILL` or `SIGSTOP`, which no
/// mask may do.
pub open spec fn blocks_unblockable(mask: u64) -> bool {
    has_sig(mask, SIGKILL) || has_sig(mask, SIGSTOP)
}

/// Tells whether `mask` would block `SIGKILL` or `SIGSTOP`.
pub fn blocks_kill_or_stop(mask: u64) -> (r: bool)
    ensures
        r == blocks_unblockable(mask),
{
    mask & (1u64 << (SIGKILL - 1)) != 0 || mask & (1u64 << (SIGSTOP - 1)) != 0
}

/// The empty mask blocks nothing.
pub proof fn empty_mask_blocks_nothing()
    ensures
        !blocks_unblockable(0),
{
    assert(0u64 & (1u64 << 8u64) == 0 && 0u64 & (1u64 << 18u64) == 0) by (bit_vector);
}

/// The lowest signal of `bits` at a position `i` or above.
pub open spec fn first_from(bits: u64, i: u64) -> Option<u64>
    decreases 64 - i,
{
    if i >= 64 {
        None
    } else if has_bit(bits, i) {
        Some((i + 1) as u64)
    } else {
        first_from(bits, (i + 1) as u64)
    }
}

/// A thread's pending and blocked signals.
#[derive(Clone, Copy, Debug, PartialEq, Eq, Structural)]
pub struct SignalSet {
    pub pending: u64,
    pub mask: u64,
}

impl SignalSet {
    /// The signals that are pending and not blocked.
    pub open spec fn deliverable(self) -> u64 {
        self.pending & !self.mask
    }

    /// The lowest deliverable signal, if any.
    pub open spec fn next_signal(self) -> Option<u64> {
        first_from(self.deliverable(), 0)
    }

    pub fn new() -> (r: SignalSet)
        ensures
            r.pending == 0,
            r.mask == 0,
    {
        SignalSet { pending: 0, mask: 0 }
    }

    /// Marks `signum` pending; a number that names no signal is ignored.
    pub fn try_add_signal(&mut self, signum: u64)
        ensures
            final(self).mask == old(self).mask,
            final(self).pending == if valid_signum(signum as int) {
                old(self).pending | sig_bit(signum)
            } else {
                old(self).pending
            },
    {
        if 1 <= signum && signum <= MAX_SIG {
            self.pending = self.pending | (1u64 << (signum - 1));
        }
    }

    /// Clears `signum` from the pending set.
    pub fn clear_pending(&mut self, signum: u64)
        requires
            valid_signum(signum as int),
        ensures
            final(self).mask == old(self).mask,
            final(self).pending == old(self).pending & !sig_bit(signum),
    {
        self.pending = self.pending & !(1u64 << (signum - 1));
    }

    /// The lowest-numbered signal that is pending and not blocked.
    pub fn find_signal(&self) -> (r: Option<u64>)
        ensures
            r == self.next_signal(),
            r matches Some(s) ==> valid_signum(s as int) && has_sig(self.deliverable(), s),
    {
        let ans: u64 = self.pending & !self.mask;
        let mut i: u64 = 0;
        while i < 64
            invariant
                i <= 64,
                ans == self.deliverable(),
                first_from(ans, 0) == first_from(ans, i),
            decreases 64 - i,
        {
            if ans & (1u64 << i) != 0 {
                return Some(i + 1);
            }
            i = i + 1;
        }
        None
    }
}

} // verus!
