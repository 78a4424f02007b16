//! One run of a scope: install a handle, learn whether the OS took the registration,
//! run the work, and put back what the slot held before, however the work ended.
use vstd::prelude::*;

use crate::table::{HandlerTable, SLOT_COUNT};

verus! {

/// How the unit of work of a scope ended.
#[derive(Clone, Copy, PartialEq, Eq, Structural, Debug)]
pub enum WorkExit {
    /// The work returned normally.
    Returned,
    /// The work is unwinding out of the scope.
    Unwound,
}

/// Where a run of a scope stands.
#[derive(Clone, Copy, PartialEq, Eq, Structural, Debug)]
pub enum Phase {
    /// The handle is in the table; the OS registration is not yet known.
    Installed,
    /// The OS took the registration; the work may run.
    Running,
    /// The OS refused the registration; the slot has been restored.
    Failed,
    /// The work returned; the slot has been restored.
    Completed,
    /// The work unwound; the slot has been restored.
    Unwound,
}

/// What the caller of a scope must do next.
#[derive(Clone, Copy, PartialEq, Eq, Structural, Debug)]
pub enum Next {
    /// Run the unit of work, then call `finish`.
    RunWork,
    /// Return the OS error to the caller; nothing is left to undo.
    ReportError,
}

/// Whether a run in phase `p` has put the slot back.
pub open spec fn is_done(p: Phase) -> bool {
    p is Failed || p is Completed || p is Unwound
}

/// The phase that a run ends in when its work ends by `exit`.
pub open spec fn end_phase(exit: WorkExit) -> Phase {
    match exit {
        WorkExit::Returned => Phase::Completed,
        WorkExit::Unwound => Phase::Unwound,
    }
}

/// A run of a scope on one thread's table: the handle it installed, the slot, and what
/// the slot held before, so that exactly that can be put back.
pub struct ScopeRun<H> {
    slot: usize,
    handler: H,
    previous: Option<H>,
    phase: Phase,
}

impl<H: Copy> ScopeRun<H> {
    /// The slot this run installed into.
    pub closed spec fn slot(&self) -> int {
        self.slot as int
    }

    /// The handle this run installed.
    pub closed spec fn handler(&self) -> H {
        self.handler
    }

    /// What the slot held when this run began.
    pub closed spec fn previous(&self) -> Option<H> {
        self.previous
    }

    /// Where this run stands.
    pub closed spec fn phase(&self) -> Phase {
        self.phase
    }

    /// The slot of a run names a slot of a table.
    pub closed spec fn wf(&self) -> bool {
        self.slot < SLOT_COUNT
    }

    /// Installs `handler` into `slot` and remembers what was there.
    pub fn begin(table: &mut HandlerTable<H>, slot: usize, handler: H) -> (r: Self)
        requires
            old(table).wf(),
            slot < SLOT_COUNT,
        ensures
            final(table).wf(),
            r.wf(),
            final(table)@ == old(table)@.update(slot as int, Some(handler)),
            r.slot() == slot as int,
            r.handler() == handler,
            r.previous() == old(table)@[slot as int],
            r.phase() == Phase::Installed,
    {
        let previous = table.replace(slot, Some(handler));
        ScopeRun { slot, handler, previous, phase: Phase::Installed }
    }

    /// Takes in whether the OS accepted the registration of the trampoline. On a refusal
    /// the slot is put back at once and the run is over.
    pub fn registered(&mut self, table: &mut HandlerTable<H>, accepted: bool) -> (r: Next)
        requires
            old(table).wf(),
            old(self).wf(),
            old(self).phase() == Phase::Installed,
        ensures
            final(table).wf(),
            final(self).wf(),
            final(self).slot() == old(self).slot(),
            final(self).handler() == old(self).handler(),
            final(self).previous() == old(self).previous(),
            accepted ==> r == Next::RunWork && final(self).phase() == Phase::Running
                && final(table)@ == old(table)@,
            !accepted ==> r == Next::ReportError && final(self).phase() == Phase::Failed
                && final(table)@ == old(table)@.update(old(self).slot(), old(self).previous()),
    {
        if accepted {
            self.phase = Phase::Running;
            Next::RunWork
        } else {
            let _mine = table.replace(self.slot, self.previous);
            self.phase = Phase::Failed;
            Next::ReportError
        }
    }

    /// Ends the run after its work ended by `exit`: the slot gets back what it held when
    /// the run began, whichever way the work ended.
    pub fn finish(&mut self, table: &mut HandlerTable<H>, exit: WorkExit)
        requires
            old(table).wf(),
            old(self).wf(),
            old(self).phase() == Phase::Running,
        ensures
            final(table).wf(),
            final(self).wf(),
            final(self).slot() == old(self).slot(),
            final(self).handler() == old(self).handler(),
            final(self).previous() == old(self).previous(),
            final(self).phase() == end_phase(exit),
            final(table)@ == old(table)@.update(old(self).slot(), old(self).previous()),
    {
        let _mine = table.replace(self.slot, self.previous);
        self.phase = match exit {
            WorkExit::Returned => Phase::Completed,
            WorkExit::Unwound => Phase::Unwound,
        };
    }

    /// Whether this run has put its slot back.
    pub fn done(&self) -> (r: bool)
        ensures
            r == is_done(self.phase()),
    {
        match self.phase {
            Phase::Failed | Phase::Completed | Phase::Unwound => true,
            _ => false,
        }
    }

    /// Whether this run is between a granted registration and the end of its work.
    pub fn running(&self) -> (r: bool)
        ensures
            r == (self.phase() == Phase::Running),
    {
        match self.phase {
            Phase::Running => true,
            _ => false,
        }
    }
}

} // verus!
