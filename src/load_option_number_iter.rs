//! The slots of the load option variables that the store lists.
use crate::name_codec::{decoded_slot, parse_load_option_name};
use crate::slot_source::SlotSource;
use crate::store::{lists_exactly, names_view, StoreError, VariableStore};
use vstd::prelude::*;

verus! {

/// The slots that a list of variable names stands for, in the list's order:
/// names that are not `Boot####` are left out.
pub open spec fn decoded_slots(names: Seq<Seq<char>>) -> Seq<u16>
    decreases names.len(),
{
    if names.len() == 0 {
        Seq::empty()
    } else {
        let rest = decoded_slots(names.drop_first());
        match decoded_slot(names[0]) {
            Some(n) => seq![n] + rest,
            None => rest,
        }
    }
}

/// The slots of the `Boot####` variables among the names that the store lists.
pub struct LoadOptionNumberIter {
    names: Vec<String>,
    pos: usize,
}

/// The same iterator under the name of the store it draws its names from.
pub type EfivarLoadOptionNumberIter = LoadOptionNumberIter;

impl LoadOptionNumberIter {
    /// The slots that are still to come.
    pub closed spec fn remaining_slots(&self) -> Seq<u16> {
        decoded_slots(names_view(self.names@).skip(self.pos as int))
    }

    /// The position does not pass the end of the names.
    pub closed spec fn well_formed(&self) -> bool {
        self.pos <= self.names@.len()
    }

    /// The slots among `names`, in their order.
    pub fn from_names(names: Vec<String>) -> (r: Self)
        ensures
            r.well_formed(),
            r.remaining_slots() == decoded_slots(names_view(names@)),
    {
        let r = Self { names, pos: 0 };
        assert(names_view(r.names@).skip(0) =~= names_view(names@));
        r
    }

    /// The slots among the names that `var_manager` lists.
    pub fn new<S: VariableStore>(var_manager: &S) -> (r: Result<Self, StoreError>)
        ensures
            r matches Ok(it) ==> it.well_formed() && exists|names: Seq<String>|
                #[trigger] lists_exactly(var_manager.vars(), names) && it.remaining_slots()
                    == decoded_slots(names_view(names)),
    {
        let names = var_manager.list_names()?;
        let ghost names_seq = names@;
        let it = Self::from_names(names);
        assert(lists_exactly(var_manager.vars(), names_seq));
        assert(it.remaining_slots() == decoded_slots(names_view(names_seq)));
        Ok(it)
    }

    /// The next listed slot, skipping names that are not `Boot####`.
    pub fn next(&mut self) -> (r: Option<u16>)
        requires
            old(self).well_formed(),
        ensures
            final(self).well_formed(),
            old(self).remaining_slots().len() == 0 ==> r is None
                && final(self).remaining_slots() == old(self).remaining_slots(),
            old(self).remaining_slots().len() > 0 ==> r == Some(old(self).remaining_slots()[0])
                && final(self).remaining_slots() == old(self).remaining_slots().drop_first(),
    {
        while self.pos < self.names.len()
            invariant
                self.well_formed(),
                self.names@ == old(self).names@,
                self.remaining_slots() == old(self).remaining_slots(),
            decreases self.names@.len() - self.pos,
        {
            let ghost rest = names_view(self.names@).skip(self.pos as int);
            assert(rest.drop_first() =~= names_view(self.names@).skip(self.pos as int + 1));
            assert(rest[0] == self.names@[self.pos as int]@);
            let found = parse_load_option_name(self.names[self.pos].as_str());
            self.pos = self.pos + 1;
            if let Some(num) = found {
                return Some(num);
            }
        }
        assert(names_view(self.names@).skip(self.pos as int).len() == 0);
        None
    }
}

impl SlotSource for LoadOptionNumberIter {
    open spec fn wf(&self) -> bool {
        self.well_formed()
    }

    open spec fn remaining(&self) -> Seq<u16> {
        self.remaining_slots()
    }

    fn next_slot(&mut self) -> (r: Option<u16>) {
        self.next()
    }
}

} // verus!
