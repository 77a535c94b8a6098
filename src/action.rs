//! Signal actions and the per-process table of them.

use vstd::prelude::*;
use crate::signal_set::valid_signum;

verus! {

/// What a thread asks to happen when a signal arrives, in the layout that
/// user space reads and writes.
#[derive(Clone, Copy, Debug, PartialEq, Eq, Structural)]
pub struct SigAction {
    /// Handler address, or one of `SIG_DFL` / `SIG_IGN`.
    pub sa_handler: usize,
    pub sa_flags: usize,
    pub sa_restorer: usize,
    /// Signals blocked while the handler runs.
    pub sa_mask: u64,
}

/// Handler address that selects the default action.
pub const SIG_DFL: usize = 0;

/// Handler address that selects ignoring the signal.
pub const SIG_IGN: usize = 1;

impl SigAction {
    pub fn default_action() -> (r: SigAction)
        ensures
            r == SigAction::spec_default(),
    {
        SigAction { sa_handler: SIG_DFL, sa_flags: 0, sa_restorer: 0, sa_mask: 0 }
    }

    pub open spec fn spec_default() -> SigAction {
        SigAction { sa_handler: SIG_DFL, sa_flags: 0, sa_restorer: 0, sa_mask: 0 }
    }
}

/// One action per signal, shared by all threads of a process. Signal
/// `signum` is at index `signum - 1`.
pub struct SignalHandler {
    pub actions: Vec<SigAction>,
}

impl SignalHandler {
    pub open spec fn wf(&self) -> bool {
        self.actions@.len() == 64
    }

    /// The action recorded for `signum`.
    pub open spec fn action(&self, signum: int) -> SigAction {
        self.actions@[signum - 1]
    }

    /// A table with the default action for every signal.
    pub fn new() -> (r: SignalHandler)
        ensures
            r.wf(),
            forall|s: int| valid_signum(s) ==> r.action(s) == SigAction::spec_default(),
    {
        let mut actions: Vec<SigAction> = Vec::new();
        let mut i: usize = 0;
        while i < 64
            invariant
                i <= 64,
                actions@.len() == i,
                forall|k: int| 0 <= k < i ==> actions@[k] == SigAction::spec_default(),
            decreases 64 - i,
        {
            actions.push(SigAction::default_action());
            i = i + 1;
        }
        SignalHandler { actions }
    }

    /// The action for `signum`, or `None` when `signum` names no signal.
    pub fn get_action(&self, signum: usize) -> (r: Option<SigAction>)
        requires
            self.wf(),
        ensures
            r == if valid_signum(signum as int) {
                Some(self.action(signum as int))
            } else {
                None::<SigAction>
            },
    {
        if 1 <= signum && signum <= 64 {
            Some(self.actions[signum - 1])
        } else {
            None
        }
    }

    /// Replaces the action for `signum`. The caller has already refused the
    /// signals whose action cannot change.
    pub fn set_action(&mut self, signum: usize, action: SigAction)
        requires
            old(self).wf(),
            valid_signum(signum as int),
        ensures
            final(self).wf(),
            final(self).actions@ == old(self).actions@.update(signum - 1, action),
    {
        self.actions.set(signum - 1, action);
    }
}

} // verus!
