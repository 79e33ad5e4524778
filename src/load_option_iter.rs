//! The load option iterator.
use crate::adapter::Adapter;
use crate::error::GetLoadOptionError;
use crate::load_option::LoadOption;
use crate::load_option_codec::{looked_up, slot_absent};
use crate::slot_source::SlotSource;
use crate::store::{HostPlatform, VariableStore};
use vstd::prelude::*;

verus! {

/// What the iterator hands out for one lookup: nothing for an absent slot,
/// else the entry or the error.
pub open spec fn step_of(found: Result<Option<LoadOption>, GetLoadOptionError>) -> Option<
    Result<LoadOption, GetLoadOptionError>,
> {
    match found {
        Ok(None) => None,
        Ok(Some(o)) => Some(Ok(o)),
        Err(e) => Some(Err(e)),
    }
}

/// The lookup that an item handed out came from.
pub open spec fn lookup_of(item: Result<LoadOption, GetLoadOptionError>) -> Result<
    Option<LoadOption>,
    GetLoadOptionError,
> {
    match item {
        Ok(o) => Ok(Some(o)),
        Err(e) => Err(e),
    }
}

/// Decide what one lookup hands out: an absent slot is passed over, an entry
/// or an error is handed out as it is.
pub fn lookup_step(found: Result<Option<LoadOption>, GetLoadOptionError>) -> (r: Option<
    Result<LoadOption, GetLoadOptionError>,
>)
    ensures
        r == step_of(found),
{
    match found {
        Ok(None) => None,
        Ok(Some(o)) => Some(Ok(o)),
        Err(e) => Some(Err(e)),
    }
}

/// Resolves the candidate slots one by one, skips those without a variable,
/// and stops after the first error.
pub struct LoadOptionIter<'a, S: VariableStore, I: SlotSource> {
    /// The adapter that resolves each slot.
    adapter: &'a Adapter<S>,
    /// The candidate slots.
    number_iter: I,
    /// An error has been handed out.
    finished: bool,
}

impl<'a, S: VariableStore, I: SlotSource> LoadOptionIter<'a, S, I> {
    /// The candidate slots are well formed.
    pub closed spec fn wf(&self) -> bool {
        self.number_iter.wf()
    }

    /// The variables of the store that the slots are looked up in.
    pub closed spec fn store_vars(&self) -> Map<Seq<char>, (u32, Seq<u8>)> {
        self.adapter.var_manager.vars()
    }

    /// The host whose error conventions that store follows.
    pub closed spec fn store_host(&self) -> HostPlatform {
        self.adapter.var_manager.host()
    }

    /// The candidate slots not yet taken, whether or not an error ended the run.
    pub closed spec fn candidates(&self) -> Seq<u16> {
        self.number_iter.remaining()
    }

    /// The candidate slots still to be probed; none once an error was handed out.
    pub closed spec fn remaining(&self) -> Seq<u16> {
        if self.finished {
            Seq::empty()
        } else {
            self.number_iter.remaining()
        }
    }

    /// Construct a new [`Self`] with the number iterator.
    pub fn with_number_iter(adapter: &'a Adapter<S>, number_iter: I) -> (r: Self)
        requires
            number_iter.wf(),
        ensures
            r.wf(),
            r.store_vars() == adapter.var_manager.vars(),
            r.store_host() == adapter.var_manager.host(),
            r.remaining() == number_iter.remaining(),
    {
        Self { adapter, number_iter, finished: false }
    }

    /// The next load option that resolves, or the first error, after which
    /// nothing more comes. The slots passed over on the way are absent.
    pub fn next(&mut self) -> (r: Option<Result<LoadOption, GetLoadOptionError>>)
        requires
            old(self).wf(),
        ensures
            final(self).wf(),
            final(self).store_vars() == old(self).store_vars(),
            final(self).store_host() == old(self).store_host(),
            old(self).remaining().len() == 0 ==> r is None,
            r is None ==> final(self).remaining().len() == 0 && forall|i: int|
                0 <= i < old(self).remaining().len() ==> slot_absent(
                    old(self).store_vars(),
                    #[trigger] old(self).remaining()[i],
                ),
            ({
                let k = old(self).remaining().len() - final(self).candidates().len();
                r matches Some(item) ==> {
                    &&& 0 < k <= old(self).remaining().len()
                    &&& forall|i: int|
                        0 <= i < k - 1 ==> slot_absent(
                            old(self).store_vars(),
                            #[trigger] old(self).remaining()[i],
                        )
                    &&& looked_up(
                        old(self).store_vars(),
                        old(self).store_host(),
                        old(self).remaining()[k - 1],
                        lookup_of(item),
                    )
                    &&& item is Ok ==> final(self).remaining() == old(self).remaining().skip(k)
                    &&& item is Err ==> final(self).remaining().len() == 0
                }
            }),
    {
        if self.finished {
            return None;
        }
        let ghost start = self.number_iter.remaining();
        loop
            invariant
                !self.finished,
                self.number_iter.wf(),
                self.adapter == old(self).adapter,
                start == old(self).remaining(),
                self.remaining().len() <= start.len(),
                self.remaining() == start.skip(start.len() - self.remaining().len()),
                forall|i: int|
                    0 <= i < start.len() - self.remaining().len() ==> slot_absent(
                        self.store_vars(),
                        #[trigger] start[i],
                    ),
            decreases self.remaining().len(),
        {
            let ghost taken = start.len() - self.remaining().len();
            let number = match self.number_iter.next_slot() {
                None => return None,
                Some(number) => number,
            };
            assert(number == start[taken]);
            let found = self.adapter.get_load_option(number);
            let step = lookup_step(found);
            match step {
                None => {
                    assert(slot_absent(self.store_vars(), start[taken]));
                },
                Some(Ok(load_option)) => {
                    return Some(Ok(load_option));
                },
                Some(Err(err)) => {
                    self.finished = true;
                    return Some(Err(err));
                },
            }
        }
    }
}

} // verus!
