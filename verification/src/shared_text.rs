//! A model of an atomically reference-counted cell holding one immutable
//! text value.
//!
//! The real primitive hands each owner a separate handle; the cell here
//! tracks, beside the text that every owner sees, how many handles are live.
//! Cloning a handle and dropping a handle are the only lifecycle operations:
//! a clone raises the count by one, a drop lowers it by one, and the
//! underlying value is given up exactly when the last handle is dropped. The
//! text itself is never mutated.

use vstd::prelude::*;

verus! {

/// One shared text value together with its count of live handles.
pub struct SharedText {
    text: String,
    strong: usize,
}

impl SharedText {
    /// How many handles are live.
    pub closed spec fn count(self) -> nat {
        self.strong as nat
    }

    /// The text every live handle sees.
    pub closed spec fn value(self) -> Seq<char> {
        self.text@
    }

    /// A cell is live while at least one handle is.
    pub open spec fn is_live(self) -> bool {
        self.count() >= 1
    }

    /// Wraps `text` in a fresh cell with exactly one live handle.
    pub fn new(text: String) -> (cell: SharedText)
        ensures
            cell.count() == 1,
            cell.value() == text@,
    {
        SharedText { text, strong: 1 }
    }

    /// Clones a handle: one more owner, the same text.
    pub fn clone_handle(&mut self)
        requires
            old(self).is_live(),
            old(self).count() < usize::MAX,
        ensures
            final(self).count() == old(self).count() + 1,
            final(self).value() == old(self).value(),
    {
        self.strong = self.strong + 1;
    }

    /// Drops a handle: one owner fewer. Returns whether the dropped handle
    /// was the last one, i.e. whether the underlying value is now destroyed.
    pub fn drop_handle(&mut self) -> (last: bool)
        requires
            old(self).is_live(),
        ensures
            final(self).count() == old(self).count() - 1,
            final(self).value() == old(self).value(),
            last <==> old(self).count() == 1,
    {
        self.strong = self.strong - 1;
        self.strong == 0
    }

    /// Reads the text through a live handle.
    pub fn read(&self) -> (text: &String)
        requires
            self.is_live(),
        ensures
            text@ == self.value(),
    {
        &self.text
    }

    /// How many handles are live, as a runtime value.
    pub fn live_handles(&self) -> (n: usize)
        ensures
            n == self.count(),
    {
        self.strong
    }
}

/// Holds when `shared` is `cell` after one handle clone: one more live
/// handle, the same text.
pub open spec fn cloned_from(shared: SharedText, cell: SharedText) -> bool {
    &&& shared.count() == cell.count() + 1
    &&& shared.value() == cell.value()
}

/// Reference-count law: while the handle a fresh cell was created with and
/// the one clone taken from it are both live — no drop having happened in
/// between — the count of live handles is exactly 2.
pub proof fn lemma_two_live_handles(fresh: SharedText, shared: SharedText)
    requires
        fresh.count() == 1,
        cloned_from(shared, fresh),
    ensures
        shared.count() == 2,
{
}

/// Agreement law: whatever order the owners read in, every read after a
/// clone sees exactly the text the cell was created with.
pub proof fn lemma_reads_agree(fresh: SharedText, shared: SharedText)
    requires
        cloned_from(shared, fresh),
    ensures
        shared.is_live(),
        shared.value() == fresh.value(),
{
}

} // verus!
