//! The handler table: one slot per signal number, each empty or holding a handle.
use vstd::prelude::*;

verus! {

/// Number of slots in a handler table: signal numbers `0 .. SLOT_COUNT` are supported.
pub const SLOT_COUNT: usize = 64;

/// Whether `signo` names a slot of a handler table.
pub open spec fn supported(signo: int) -> bool {
    0 <= signo < SLOT_COUNT as int
}

/// The slot of a signal number, if the table has one for it.
pub fn slot_of(signo: i32) -> (r: Option<usize>)
    ensures
        r is Some <==> supported(signo as int),
        r is Some ==> r->0 as int == signo as int,
{
    if 0 <= signo && signo < SLOT_COUNT as i32 {
        Some(signo as usize)
    } else {
        None
    }
}

/// Per-signal table of the currently active handler handles of one thread.
///
/// A handle is a non-owning reference to a callback (`H` is `Copy`): the table never
/// owns what it names, and a scope that installs a handle takes it out again before
/// the callback it names goes away.
pub struct HandlerTable<H> {
    slots: Vec<Option<H>>,
}

impl<H: Copy> View for HandlerTable<H> {
    type V = Seq<Option<H>>;

    closed spec fn view(&self) -> Seq<Option<H>> {
        self.slots@
    }
}

/// The table with no handle in any slot.
pub open spec fn empty_table<H>() -> Seq<Option<H>> {
    Seq::new(SLOT_COUNT as nat, |i: int| None::<H>)
}

/// Whether no slot of `t` holds a handle.
pub open spec fn all_empty<H>(t: Seq<Option<H>>) -> bool {
    forall|i: int| 0 <= i < t.len() ==> (#[trigger] t[i]) is None
}

impl<H: Copy> HandlerTable<H> {
    /// The table has exactly one slot per supported signal number.
    pub open spec fn wf(&self) -> bool {
        self@.len() == SLOT_COUNT
    }

    /// A table with every slot empty.
    pub fn new() -> (r: Self)
        ensures
            r.wf(),
            r@ == empty_table::<H>(),
    {
        let mut slots: Vec<Option<H>> = Vec::new();
        let mut i: usize = 0;
        while i < SLOT_COUNT
            invariant
                i <= SLOT_COUNT,
                slots@.len() == i,
                forall|j: int| 0 <= j < i ==> (#[trigger] slots@[j]) is None,
            decreases SLOT_COUNT - i,
        {
            slots.push(None);
            i = i + 1;
        }
        let r = HandlerTable { slots };
        assert(r@ =~= empty_table::<H>());
        r
    }

    /// The handle in slot `slot`, if any.
    pub fn get(&self, slot: usize) -> (r: Option<H>)
        requires
            self.wf(),
            slot < SLOT_COUNT,
        ensures
            r == self@[slot as int],
    {
        self.slots[slot]
    }

    /// Puts `new` in slot `slot` and hands back what was there.
    pub fn replace(&mut self, slot: usize, new: Option<H>) -> (r: Option<H>)
        requires
            old(self).wf(),
            slot < SLOT_COUNT,
        ensures
            final(self).wf(),
            r == old(self)@[slot as int],
            final(self)@ == old(self)@.update(slot as int, new),
    {
        let prev = self.slots[slot];
        self.slots.set(slot, new);
        prev
    }
}

} // verus!
