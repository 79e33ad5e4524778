//! What the load option iterator needs from a sequence of candidate slots.
use vstd::prelude::*;

verus! {

/// A finite sequence of candidate slot numbers, consumed one at a time.
pub trait SlotSource {
    /// The source's own invariant.
    spec fn wf(&self) -> bool;

    /// The slots still to come, in order.
    spec fn remaining(&self) -> Seq<u16>;

    /// Take the next slot, or `None` once all have been taken.
    fn next_slot(&mut self) -> (r: Option<u16>)
        requires
            old(self).wf(),
        ensures
            final(self).wf(),
            old(self).remaining().len() == 0 ==> r is None && final(self).remaining()
                == old(self).remaining(),
            old(self).remaining().len() > 0 ==> r == Some(old(self).remaining()[0])
                && final(self).remaining() == old(self).remaining().drop_first(),
    ;
}

} // verus!
