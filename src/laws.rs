//! Properties of the table, the trampoline's decision and scope runs taken together.
use vstd::prelude::*;

use crate::dispatch::dispatch_spec;
use crate::scope::ScopeRun;
use crate::table::{all_empty, empty_table, supported, SLOT_COUNT};

verus! {

/// Whether every run of `running` names a supported slot.
pub open spec fn slots_supported<H>(running: Seq<(int, H)>) -> bool {
    forall|i: int| 0 <= i < running.len() ==> supported(#[trigger] running[i].0)
}

/// Whether some run of `running` is for slot `s`.
pub open spec fn has_run_for<H>(running: Seq<(int, H)>, s: int) -> bool {
    exists|i: int| 0 <= i < running.len() && (#[trigger] running[i]).0 == s
}

/// The table of a thread whose runs in progress are `running`, outermost first: each
/// run began on the table its enclosing runs left, starting from an empty table.
pub open spec fn table_of<H>(running: Seq<(int, H)>) -> Seq<Option<H>>
    decreases running.len(),
{
    if running.len() == 0 {
        empty_table::<H>()
    } else {
        table_of(running.drop_last()).update(running.last().0, Some(running.last().1))
    }
}

/// A table built by nested runs keeps one slot per supported signal.
pub proof fn lemma_table_of_len<H>(running: Seq<(int, H)>)
    requires
        slots_supported(running),
    ensures
        table_of(running).len() == SLOT_COUNT,
    decreases running.len(),
{
    if running.len() > 0 {
        assert(supported(running[running.len() - 1].0));
        assert(slots_supported(running.drop_last()));
        lemma_table_of_len(running.drop_last());
    }
}

/// A slot for which no run is in progress holds no handle.
pub proof fn lemma_idle_slot_is_empty<H>(running: Seq<(int, H)>, s: int)
    requires
        slots_supported(running),
        supported(s),
        !has_run_for(running, s),
    ensures
        table_of(running)[s] is None,
    decreases running.len(),
{
    if running.len() > 0 {
        let rest = running.drop_last();
        assert(!has_run_for(rest, s)) by {
            if has_run_for(rest, s) {
                let i = choose|i: int| 0 <= i < rest.len() && (#[trigger] rest[i]).0 == s;
                assert(running[i] == rest[i]);
                assert(has_run_for(running, s));
            }
        }
        assert(running.last().0 != s) by {
            if running.last().0 == s {
                assert(running[running.len() - 1] == running.last());
                assert(has_run_for(running, s));
            }
        }
        assert(slots_supported(rest));
        lemma_idle_slot_is_empty(rest, s);
        lemma_table_of_len(rest);
    } else {
        assert(empty_table::<H>()[s] is None);
    }
}

/// Beginning a run on the table of its enclosing runs gives the table of the runs with
/// the new one innermost.
pub proof fn lemma_begin_pushes<H>(running: Seq<(int, H)>, s: int, h: H)
    ensures
        table_of(running).update(s, Some(h)) == table_of(running.push((s, h))),
{
    assert(running.push((s, h)).drop_last() =~= running);
}

/// With no run in progress, every slot is empty.
pub proof fn lemma_no_runs_no_handlers<H>()
    ensures
        all_empty(table_of(Seq::<(int, H)>::empty())),
{
}

/// Ending the innermost run puts the table back to what its enclosing runs left: the
/// slot gets what it held when the run began, not merely emptied.
pub proof fn lemma_innermost_end_restores<H>(running: Seq<(int, H)>, s: int, h: H)
    requires
        slots_supported(running),
        supported(s),
    ensures
        table_of(running.push((s, h))).update(s, table_of(running)[s]) == table_of(running),
{
    let pushed = running.push((s, h));
    assert(pushed.drop_last() =~= running);
    lemma_table_of_len(running);
    assert(table_of(pushed).update(s, table_of(running)[s]) =~= table_of(running));
}

/// Nested runs for one signal: while the inner run is in progress its handle is the one
/// dispatched; once it ends the outer handle is dispatched again; once the outer ends the
/// table is as before both.
pub proof fn lemma_nested_runs<H>(t: Seq<Option<H>>, s: int, h1: H, h2: H)
    requires
        t.len() == SLOT_COUNT,
        supported(s),
    ensures
        ({
            let outer = t.update(s, Some(h1));
            let inner = outer.update(s, Some(h2));
            &&& dispatch_spec(inner, s, true) == Some((h2, s as u8))
            &&& inner.update(s, outer[s]) == outer
            &&& dispatch_spec(inner.update(s, outer[s]), s, true) == Some((h1, s as u8))
            &&& outer.update(s, t[s]) == t
        }),
{
    let outer = t.update(s, Some(h1));
    let inner = outer.update(s, Some(h2));
    assert(inner.update(s, outer[s]) =~= outer);
    assert(outer.update(s, t[s]) =~= t);
}

/// Beginning a run and ending it, by a return or by unwinding alike (`finish` puts back
/// the same value for either exit), leaves the table as it was before the run.
pub proof fn lemma_run_restores_table<H: Copy>(t: Seq<Option<H>>, run: ScopeRun<H>)
    requires
        t.len() == SLOT_COUNT,
        supported(run.slot()),
        run.previous() == t[run.slot()],
    ensures
        t.update(run.slot(), Some(run.handler())).update(run.slot(), run.previous()) == t,
{
    assert(t.update(run.slot(), Some(run.handler())).update(run.slot(), run.previous()) =~= t);
}

/// A run with no enclosing run for its signal leaves that slot empty when it ends.
pub proof fn lemma_no_leak<H: Copy>(t: Seq<Option<H>>, run: ScopeRun<H>)
    requires
        t.len() == SLOT_COUNT,
        supported(run.slot()),
        run.previous() == t[run.slot()],
        t[run.slot()] is None,
    ensures
        t.update(run.slot(), Some(run.handler())).update(run.slot(), run.previous())[run.slot()] is None,
{
}

/// A delivery of a signal with one handle installed goes to that handle, with the
/// signal's own number. `dispatch` leaves the table as it is, so a second delivery in a
/// row is dispatched the same way.
pub proof fn lemma_dispatch_repeats<H>(t: Seq<Option<H>>, s: int, h: H)
    requires
        t.len() == SLOT_COUNT,
        supported(s),
        t[s] == Some(h),
    ensures
        dispatch_spec(t, s, true) == Some((h, s as u8)),
        (s as u8) as int == s,
{
}

/// Installing into, and restoring, one slot leaves every other slot as it was.
pub proof fn lemma_other_slots_untouched<H>(t: Seq<Option<H>>, s1: int, s2: int, h: H, prev: Option<H>)
    requires
        t.len() == SLOT_COUNT,
        supported(s1),
        supported(s2),
        s1 != s2,
    ensures
        t.update(s1, Some(h))[s2] == t[s2],
        t.update(s1, prev)[s2] == t[s2],
        dispatch_spec(t.update(s1, Some(h)), s2, true) == dispatch_spec(t, s2, true),
{
}

} // verus!
