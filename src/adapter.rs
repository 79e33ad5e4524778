//! The entry point: the four operations over one variable store.
use crate::boot_next::{boot_next_looked_up, with_boot_next};
use crate::error::{EnumerateLoadOptionsError, GetBootNextError, GetLoadOptionError, SetBootNextError};
use crate::heuristics_load_option_number_iter::{full_sweep, HeuristicsLoadOptionNumberIter};
use crate::load_option::LoadOption;
use crate::load_option_codec::{lemma_resolved_read_is_looked_up, load_option_from_read, looked_up};
use crate::load_option_iter::LoadOptionIter;
use crate::load_option_number_iter::{decoded_slots, LoadOptionNumberIter};
use crate::name_codec::format_load_option_name;
use crate::store::{lists_exactly, names_view, VariableStore};
use vstd::prelude::*;

verus! {

/// An interface to the firmware variables of one store.
pub struct Adapter<S: VariableStore> {
    /// The store that holds the variables.
    pub var_manager: S,
}

impl<S: VariableStore> Adapter<S> {
    /// An adapter over `var_manager`.
    pub fn from_var_manager(var_manager: S) -> (r: Self)
        ensures
            r.var_manager == var_manager,
    {
        Self { var_manager }
    }

    /// Get the load option under the number `num`: `None` exactly where its
    /// variable is absent.
    pub fn get_load_option(&self, num: u16) -> (r: Result<Option<LoadOption>, GetLoadOptionError>)
        ensures
            looked_up(self.var_manager.vars(), self.var_manager.host(), num, r),
    {
        let var_name = format_load_option_name(num);
        let read = self.var_manager.read(var_name.as_str());
        let ghost answer = read;
        let platform = self.var_manager.platform();
        let r = load_option_from_read(num, read, platform);
        proof {
            lemma_resolved_read_is_looked_up(self.var_manager.vars(), platform, num, answer, r);
        }
        r
    }

    /// Enumerate the load options of the slots that the store lists, in the
    /// order of its listing.
    pub fn load_options(&self) -> (r: Result<
        LoadOptionIter<'_, S, LoadOptionNumberIter>,
        EnumerateLoadOptionsError,
    >)
        ensures
            r matches Ok(it) ==> {
                &&& it.wf()
                &&& it.store_vars() == self.var_manager.vars()
                &&& it.store_host() == self.var_manager.host()
                &&& exists|names: Seq<String>| #[trigger]
                    lists_exactly(self.var_manager.vars(), names) && it.remaining()
                        == decoded_slots(names_view(names))
            },
    {
        let number_iter = match LoadOptionNumberIter::new(&self.var_manager) {
            Ok(it) => it,
            Err(e) => return Err(EnumerateLoadOptionsError::Efivar(e)),
        };
        Ok(LoadOptionIter::with_number_iter(self, number_iter))
    }

    /// Enumerate the load options by sweeping the slot numbers, for a store
    /// that cannot list its variables.
    pub fn load_options_by_sweep(&self) -> (r: LoadOptionIter<'_, S, HeuristicsLoadOptionNumberIter>)
        ensures
            r.wf(),
            r.store_vars() == self.var_manager.vars(),
            r.store_host() == self.var_manager.host(),
            r.remaining() == full_sweep(),
    {
        LoadOptionIter::with_number_iter(self, HeuristicsLoadOptionNumberIter::new())
    }

    /// Set the `BootNext` variable value to `num`: one write of its two bytes
    /// in the machine's byte order, with all three access flags.
    pub fn set_boot_next(&mut self, num: u16) -> (r: Result<(), SetBootNextError>)
        ensures
            final(self).var_manager.host() == old(self).var_manager.host(),
            r is Ok ==> final(self).var_manager.vars() == with_boot_next(
                old(self).var_manager.vars(),
                num,
            ),
            r is Err ==> final(self).var_manager.vars() == old(self).var_manager.vars(),
    {
        crate::operation::set_boot_next(&mut self.var_manager, num)
    }

    /// Get the current `BootNext` variable value: `None` exactly where it is unset.
    pub fn get_boot_next(&mut self) -> (r: Result<Option<u16>, GetBootNextError>)
        ensures
            *final(self) == *old(self),
            boot_next_looked_up(old(self).var_manager.vars(), old(self).var_manager.host(), r),
    {
        crate::operation::get_boot_next(&mut self.var_manager)
    }
}

} // verus!
