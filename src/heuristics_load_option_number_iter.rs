//! A sweep over the slot numbers that firmware is known to use, for stores
//! that cannot list their variables.
use crate::slot_source::SlotSource;
use vstd::prelude::*;

verus! {

/// The last slot of the low range that the sweep visits.
pub const LOW_RANGE_END: u16 = 0x0020;

/// The first slot of the high range that the sweep jumps to.
pub const HIGH_RANGE_START: u16 = 0x9980;

/// How many slots the sweep visits.
pub open spec fn sweep_len() -> nat {
    ((LOW_RANGE_END as int + 1) + (0x10000 - HIGH_RANGE_START as int)) as nat
}

/// Whether the sweep visits slot `v`: everything but the gap between the two ranges.
pub open spec fn in_sweep(v: int) -> bool {
    (0 <= v <= LOW_RANGE_END as int) || (HIGH_RANGE_START as int <= v <= 0xFFFF)
}

/// The slot visited at step `i` of the sweep.
pub open spec fn sweep_value(i: int) -> int {
    if i <= LOW_RANGE_END as int {
        i
    } else {
        i - (LOW_RANGE_END as int + 1) + HIGH_RANGE_START as int
    }
}

/// The step at which the sweep visits slot `v`.
pub open spec fn sweep_position(v: int) -> int {
    if v <= LOW_RANGE_END as int {
        v
    } else {
        v - HIGH_RANGE_START as int + (LOW_RANGE_END as int + 1)
    }
}

/// Every slot that the sweep visits, in order.
pub open spec fn full_sweep() -> Seq<u16> {
    Seq::new(sweep_len(), |i: int| sweep_value(i) as u16)
}

/// Visits the slots `0x0000..=0x0020`, then jumps to `0x9980..=0xFFFF`.
pub struct HeuristicsLoadOptionNumberIter {
    next: u16,
    more: bool,
}

impl HeuristicsLoadOptionNumberIter {
    /// The slot that comes next is one of the sweep's.
    pub closed spec fn wf(&self) -> bool {
        self.more ==> in_sweep(self.next as int)
    }

    /// The slots that are still to come, in order.
    pub closed spec fn remaining(&self) -> Seq<u16> {
        if self.more {
            full_sweep().skip(sweep_position(self.next as int))
        } else {
            Seq::empty()
        }
    }

    /// A sweep that has not started.
    pub fn new() -> (r: Self)
        ensures
            r.wf(),
            r.remaining() == full_sweep(),
    {
        let r = Self { next: 0, more: true };
        assert(r.remaining() =~= full_sweep());
        r
    }

    /// The next slot of the sweep, or `None` once `0xFFFF` has been visited.
    pub fn next(&mut self) -> (r: Option<u16>)
        requires
            old(self).wf(),
        ensures
            final(self).wf(),
            old(self).remaining().len() == 0 ==> r is None && final(self).remaining()
                == old(self).remaining(),
            old(self).remaining().len() > 0 ==> r == Some(old(self).remaining()[0])
                && final(self).remaining() == old(self).remaining().drop_first(),
    {
        if !self.more {
            return None;
        }
        let current = self.next;
        let ghost k = sweep_position(current as int);
        assert(full_sweep().skip(k)[0] == current);
        if current == 0xFFFF {
            self.more = false;
            assert(self.remaining() =~= old(self).remaining().drop_first());
        } else {
            if current == LOW_RANGE_END {
                self.next = HIGH_RANGE_START;
            } else {
                self.next = current + 1;
            }
            assert(sweep_position(self.next as int) == k + 1);
            assert(self.remaining() =~= old(self).remaining().drop_first());
        }
        Some(current)
    }
}

impl SlotSource for HeuristicsLoadOptionNumberIter {
    open spec fn wf(&self) -> bool {
        HeuristicsLoadOptionNumberIter::wf(self)
    }

    open spec fn remaining(&self) -> Seq<u16> {
        HeuristicsLoadOptionNumberIter::remaining(self)
    }

    fn next_slot(&mut self) -> (r: Option<u16>) {
        self.next()
    }
}

/// The sweep visits exactly the slots outside the gap `0x0021..=0x997F`, each
/// once, and so ends after at most 65536 steps.
pub proof fn lemma_sweep_covers_all_but_gap()
    ensures
        full_sweep().len() <= 0x10000,
        full_sweep().no_duplicates(),
        forall|v: u16| #[trigger]
            full_sweep().contains(v) <==> !(0x0021 <= v && v <= 0x997F),
{
    assert forall|v: u16| !(0x0021 <= v && v <= 0x997F) implies #[trigger] full_sweep().contains(
        v,
    ) by {
        let i = sweep_position(v as int);
        assert(full_sweep()[i] == v);
    }
}

/// Right after the last slot of the low range, the sweep visits `0x9980`.
pub proof fn lemma_sweep_jump()
    ensures
        forall|i: int|
            0 <= i < full_sweep().len() - 1 && #[trigger] full_sweep()[i] == 0x0020 ==> full_sweep()[i
                + 1] == 0x9980,
{
}

} // verus!
