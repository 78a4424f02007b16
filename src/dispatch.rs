//! What the trampoline does with a delivered signal.
use vstd::prelude::*;

use crate::table::{supported, HandlerTable, SLOT_COUNT};

verus! {

/// The handle to call, with the signal number to pass it, for a delivery of `signo`:
/// only a supported signal whose slot holds a handle, and only when the OS handed over
/// event information.
pub open spec fn dispatch_spec<H>(t: Seq<Option<H>>, signo: int, info_present: bool) -> Option<(H, u8)> {
    if supported(signo) && info_present && t[signo] is Some {
        Some((t[signo]->0, signo as u8))
    } else {
        None
    }
}

/// Decides what a delivery of `signo` runs: the handle found in its slot, called with
/// the signal number narrowed to `u8`, or nothing. Never panics, whatever `signo` is.
pub fn dispatch<H: Copy>(table: &HandlerTable<H>, signo: i32, info_present: bool) -> (r: Option<(H, u8)>)
    requires
        table.wf(),
    ensures
        r == dispatch_spec(table@, signo as int, info_present),
{
    if 0 <= signo && signo < SLOT_COUNT as i32 && info_present {
        match table.get(signo as usize) {
            Some(h) => Some((h, signo as u8)),
            None => None,
        }
    } else {
        None
    }
}

} // verus!
