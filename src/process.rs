//! Per-thread signal modules and the registry a process keeps of them.

use vstd::prelude::*;
use crate::action::SignalHandler;
use crate::signal_set::{SignalSet, valid_signum, sig_bit, blocks_unblockable, empty_mask_blocks_nothing};

verus! {

/// The registers saved when a thread traps, as far as signal delivery needs
/// them.
#[derive(Clone, Copy, Debug, PartialEq, Eq, Structural)]
pub struct TrapFrame {
    pub pc: usize,
    pub sp: usize,
    /// The return-value register.
    pub a0: usize,
}

/// The signal state of one thread.
#[derive(Clone, Copy, Debug, PartialEq, Eq, Structural)]
pub struct SignalModule {
    pub tid: u64,
    pub signal_set: SignalSet,
    /// The frame to go back to while a handler runs; `None` outside a handler.
    pub last_trap_frame_for_signal: Option<TrapFrame>,
}

/// `s` with `signum` added to its pending set; a number that names no
/// signal leaves it as it is.
pub open spec fn raised(s: SignalSet, signum: u64) -> SignalSet {
    if valid_signum(signum as int) {
        SignalSet { pending: s.pending | sig_bit(signum), mask: s.mask }
    } else {
        s
    }
}

/// `m` after `signum` was raised on it.
pub open spec fn module_raised(m: SignalModule, signum: u64) -> SignalModule {
    SignalModule { signal_set: raised(m.signal_set, signum), ..m }
}

/// The signal state of a process: the handler table that all its threads
/// share and the registry of its threads' signal modules.
pub struct ProcessSignals {
    pub pid: u64,
    pub main_tid: u64,
    pub handler: SignalHandler,
    pub signal_modules: Vec<SignalModule>,
}

impl ProcessSignals {
    /// The table has an entry per signal, each thread one module, and no
    /// thread blocks `SIGKILL` or `SIGSTOP`.
    pub open spec fn wf(&self) -> bool {
        &&& self.handler.wf()
        &&& forall|j: int|
            0 <= j < self.signal_modules@.len() ==> !blocks_unblockable(
                (#[trigger] self.signal_modules@[j]).signal_set.mask,
            )
        &&& forall|i: int, j: int|
            0 <= i < self.signal_modules@.len() && 0 <= j < self.signal_modules@.len() && i != j
                ==> self.signal_modules@[i].tid != self.signal_modules@[j].tid
    }

    pub open spec fn has_thread(&self, tid: u64) -> bool {
        exists|j: int| 0 <= j < self.signal_modules@.len() && self.signal_modules@[j].tid == tid
    }

    /// Where the module of `tid` stands in the registry.
    pub open spec fn index_of(&self, tid: u64) -> int {
        choose|j: int| 0 <= j < self.signal_modules@.len() && self.signal_modules@[j].tid == tid
    }

    /// The module of thread `tid`.
    pub open spec fn module(&self, tid: u64) -> SignalModule {
        self.signal_modules@[self.index_of(tid)]
    }

    /// Every module is kept but the one of `tid`, which becomes `f` of it.
    pub open spec fn modules_changed(
        &self,
        before: Seq<SignalModule>,
        tid: u64,
        f: spec_fn(SignalModule) -> SignalModule,
    ) -> bool {
        &&& self.signal_modules@.len() == before.len()
        &&& forall|j: int|
            0 <= j < before.len() ==> #[trigger] self.signal_modules@[j] == if before[j].tid == tid {
                f(before[j])
            } else {
                before[j]
            }
    }

    /// The module at `j` is the one of its thread.
    pub proof fn lemma_index_of(&self, j: int)
        requires
            self.wf(),
            0 <= j < self.signal_modules@.len(),
        ensures
            self.has_thread(self.signal_modules@[j].tid),
            self.index_of(self.signal_modules@[j].tid) == j,
    {
        let tid = self.signal_modules@[j].tid;
        let c = self.index_of(tid);
        assert(0 <= c < self.signal_modules@.len() && self.signal_modules@[c].tid == tid);
        if c != j {
            assert(self.signal_modules@[c].tid != self.signal_modules@[j].tid);
        }
    }

    /// A process whose main thread is its only thread, with default actions.
    pub fn new(pid: u64, main_tid: u64) -> (r: ProcessSignals)
        ensures
            r.wf(),
            r.has_thread(main_tid),
            r.pid == pid,
            r.main_tid == main_tid,
            r.signal_modules@ == seq![
                SignalModule {
                    tid: main_tid,
                    signal_set: SignalSet { pending: 0, mask: 0 },
                    last_trap_frame_for_signal: None,
                },
            ],
            forall|s: int| valid_signum(s) ==> r.handler.action(s) == crate::action::SigAction::spec_default(),
    {
        let mut signal_modules: Vec<SignalModule> = Vec::new();
        signal_modules.push(
            SignalModule {
                tid: main_tid,
                signal_set: SignalSet::new(),
                last_trap_frame_for_signal: None,
            },
        );
        let r = ProcessSignals { pid, main_tid, handler: SignalHandler::new(), signal_modules };
        proof {
            empty_mask_blocks_nothing();
            r.lemma_index_of(0);
        }
        r
    }

    /// Where the module of `tid` stands, if it has one.
    pub fn find_module(&self, tid: u64) -> (r: Option<usize>)
        requires
            self.wf(),
        ensures
            r is None <==> !self.has_thread(tid),
            r matches Some(j) ==> j == self.index_of(tid) && self.signal_modules@[j as int].tid == tid,
    {
        let mut j: usize = 0;
        while j < self.signal_modules.len()
            invariant
                self.wf(),
                j <= self.signal_modules@.len(),
                forall|k: int| 0 <= k < j ==> self.signal_modules@[k].tid != tid,
            decreases self.signal_modules@.len() - j,
        {
            if self.signal_modules[j].tid == tid {
                proof {
                    self.lemma_index_of(j as int);
                }
                return Some(j);
            }
            j = j + 1;
        }
        None
    }

    /// Registers a new thread with empty sets, when it is created.
    pub fn add_thread(&mut self, tid: u64)
        requires
            old(self).wf(),
            !old(self).has_thread(tid),
        ensures
            final(self).wf(),
            final(self).has_thread(tid),
            final(self).pid == old(self).pid,
            final(self).main_tid == old(self).main_tid,
            final(self).handler == old(self).handler,
            final(self).signal_modules@ == old(self).signal_modules@.push(
                SignalModule {
                    tid,
                    signal_set: SignalSet { pending: 0, mask: 0 },
                    last_trap_frame_for_signal: None,
                },
            ),
    {
        self.signal_modules.push(
            SignalModule { tid, signal_set: SignalSet::new(), last_trap_frame_for_signal: None },
        );
        proof {
            empty_mask_blocks_nothing();
            self.lemma_index_of(self.signal_modules@.len() - 1);
        }
    }

    /// Drops the module of `tid`, when the thread is reaped.
    pub fn remove_thread(&mut self, tid: u64)
        requires
            old(self).wf(),
        ensures
            final(self).wf(),
            final(self).pid == old(self).pid,
            final(self).main_tid == old(self).main_tid,
            final(self).handler == old(self).handler,
            !final(self).has_thread(tid),
            old(self).has_thread(tid) ==> final(self).signal_modules@ == old(self).signal_modules@.remove(
                old(self).index_of(tid),
            ),
            !old(self).has_thread(tid) ==> final(self).signal_modules@ == old(self).signal_modules@,
    {
        match self.find_module(tid) {
            Some(j) => {
                self.signal_modules.remove(j);
            },
            None => {},
        }
    }

    /// Whether some thread of the process has a signal pending, blocked or
    /// not.
    pub open spec fn has_pending(&self) -> bool {
        exists|j: int|
            0 <= j < self.signal_modules@.len() && (#[trigger] self.signal_modules@[j]).signal_set.pending != 0
    }

    /// Tells whether some thread of the process has a signal pending, blocked
    /// or not: a cheaper test than asking each thread for a deliverable one.
    pub fn have_signals(&self) -> (r: bool)
        ensures
            r == self.has_pending(),
    {
        let mut j: usize = 0;
        while j < self.signal_modules.len()
            invariant
                j <= self.signal_modules@.len(),
                forall|k: int| 0 <= k < j ==> (#[trigger] self.signal_modules@[k]).signal_set.pending == 0,
            decreases self.signal_modules@.len() - j,
        {
            if self.signal_modules[j].signal_set.pending != 0 {
                return true;
            }
            j = j + 1;
        }
        false
    }

    /// Whether thread `tid` runs a signal handler now.
    pub fn in_signal_handler(&self, tid: u64) -> (r: bool)
        requires
            self.wf(),
            self.has_thread(tid),
        ensures
            r == self.module(tid).last_trap_frame_for_signal is Some,
    {
        match self.find_module(tid) {
            Some(j) => self.signal_modules[j].last_trap_frame_for_signal.is_some(),
            None => false,
        }
    }

    /// Puts `m` in place of the module at `j`.
    pub fn replace_module(&mut self, j: usize, m: SignalModule)
        requires
            old(self).wf(),
            j < old(self).signal_modules@.len(),
            m.tid == old(self).signal_modules@[j as int].tid,
            !blocks_unblockable(m.signal_set.mask),
        ensures
            final(self).wf(),
            final(self).pid == old(self).pid,
            final(self).main_tid == old(self).main_tid,
            final(self).handler == old(self).handler,
            final(self).signal_modules@ == old(self).signal_modules@.update(j as int, m),
    {
        self.signal_modules.set(j, m);
    }

    /// Raises `signum` on thread `tid`; an unknown thread or a number that
    /// names no signal changes nothing.
    pub fn send_signal_to_thread(&mut self, tid: u64, signum: u64)
        requires
            old(self).wf(),
        ensures
            final(self).wf(),
            final(self).pid == old(self).pid,
            final(self).main_tid == old(self).main_tid,
            final(self).handler == old(self).handler,
            final(self).modules_changed(old(self).signal_modules@, tid, |m| module_raised(m, signum)),
    {
        match self.find_module(tid) {
            Some(j) => {
                let mut m = self.signal_modules[j];
                m.signal_set.try_add_signal(signum);
                self.replace_module(j, m);
            },
            None => {},
        }
    }
}

/// `p` and `q` are different processes with no thread in common.
pub open spec fn disjoint(p: ProcessSignals, q: ProcessSignals) -> bool {
    &&& p.pid != q.pid
    &&& forall|a: int, b: int|
        0 <= a < p.signal_modules@.len() && 0 <= b < q.signal_modules@.len()
            ==> #[trigger] p.signal_modules@[a].tid != #[trigger] q.signal_modules@[b].tid
}

/// No two processes of `ps` share a pid, nor two of their threads a tid.
pub open spec fn ids_unique(ps: Seq<ProcessSignals>) -> bool {
    forall|i: int, k: int| 0 <= i < k < ps.len() ==> disjoint(#[trigger] ps[i], #[trigger] ps[k])
}

/// Tells whether `p` and `q` are different processes with no thread in
/// common.
pub fn are_disjoint(p: &ProcessSignals, q: &ProcessSignals) -> (r: bool)
    ensures
        r == disjoint(*p, *q),
{
    if p.pid == q.pid {
        return false;
    }
    let mut a: usize = 0;
    while a < p.signal_modules.len()
        invariant
            a <= p.signal_modules@.len(),
            p.pid != q.pid,
            forall|x: int, b: int|
                0 <= x < a && 0 <= b < q.signal_modules@.len()
                    ==> #[trigger] p.signal_modules@[x].tid != #[trigger] q.signal_modules@[b].tid,
        decreases p.signal_modules@.len() - a,
    {
        let t = p.signal_modules[a].tid;
        let mut b: usize = 0;
        while b < q.signal_modules.len()
            invariant
                a < p.signal_modules@.len(),
                t == p.signal_modules@[a as int].tid,
                b <= q.signal_modules@.len(),
                forall|y: int| 0 <= y < b ==> #[trigger] q.signal_modules@[y].tid != t,
            decreases q.signal_modules@.len() - b,
        {
            if q.signal_modules[b].tid == t {
                return false;
            }
            b = b + 1;
        }
        a = a + 1;
    }
    true
}

/// Tells whether no two processes of `ps` share a pid, nor two of their
/// threads a tid.
pub fn ids_are_unique(ps: &Vec<ProcessSignals>) -> (r: bool)
    ensures
        r == ids_unique(ps@),
{
    let mut k: usize = 0;
    while k < ps.len()
        invariant
            k <= ps@.len(),
            forall|i: int, k2: int| 0 <= i < k2 < k ==> disjoint(#[trigger] ps@[i], #[trigger] ps@[k2]),
        decreases ps@.len() - k,
    {
        let mut i: usize = 0;
        while i < k
            invariant
                k < ps@.len(),
                i <= k,
                forall|i2: int, k2: int| 0 <= i2 < k2 < k ==> disjoint(#[trigger] ps@[i2], #[trigger] ps@[k2]),
                forall|i2: int| 0 <= i2 < i ==> disjoint(#[trigger] ps@[i2], ps@[k as int]),
            decreases k - i,
        {
            if !are_disjoint(&ps[i], &ps[k]) {
                return false;
            }
            i = i + 1;
        }
        k = k + 1;
    }
    true
}

} // verus!
