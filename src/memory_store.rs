//! A variable store held in memory, for tests and tools that work offline.
use crate::store::{lists_exactly, names_view, HostPlatform, StoreError, VariableStore};
use vstd::prelude::*;
use vstd::slice::slice_to_vec;

verus! {

/// One write kept by a [`MemoryStore`].
pub struct StoredVar {
    pub name: String,
    pub flags: u32,
    pub value: Vec<u8>,
}

/// The variables that a list of writes leaves: a later write of a name
/// replaces the earlier ones.
pub open spec fn vars_of(writes: Seq<StoredVar>) -> Map<Seq<char>, (u32, Seq<u8>)>
    decreases writes.len(),
{
    if writes.len() == 0 {
        Map::empty()
    } else {
        let last = writes.last();
        vars_of(writes.drop_last()).insert(last.name@, (last.flags, last.value@))
    }
}

/// The last write of `name` decides its value; with none, it is absent.
proof fn lemma_vars_of_lookup(writes: Seq<StoredVar>, name: Seq<char>, n: int)
    requires
        0 <= n <= writes.len(),
        forall|j: int| n <= j < writes.len() ==> (#[trigger] writes[j]).name@ != name,
    ensures
        vars_of(writes) .contains_key(name) == vars_of(writes.take(n)).contains_key(name),
        vars_of(writes).contains_key(name) ==> vars_of(writes)[name] == vars_of(
            writes.take(n),
        )[name],
    decreases writes.len() - n,
{
    if n < writes.len() {
        lemma_vars_of_lookup(writes, name, n + 1);
        assert(writes.take(n + 1).drop_last() =~= writes.take(n));
    } else {
        assert(writes.take(n) =~= writes);
    }
}

/// Firmware variables kept in memory.
pub struct MemoryStore {
    writes: Vec<StoredVar>,
    platform: HostPlatform,
}

impl MemoryStore {
    /// An empty store that follows the error conventions of `platform`.
    pub fn new(platform: HostPlatform) -> (r: Self)
        ensures
            r.vars() == Map::<Seq<char>, (u32, Seq<u8>)>::empty(),
            r.host() == platform,
    {
        Self { writes: Vec::new(), platform }
    }
}

impl VariableStore for MemoryStore {
    closed spec fn vars(&self) -> Map<Seq<char>, (u32, Seq<u8>)> {
        vars_of(self.writes@)
    }

    closed spec fn host(&self) -> HostPlatform {
        self.platform
    }

    fn platform(&self) -> (r: HostPlatform) {
        self.platform
    }

    fn read(&self, name: &str) -> (r: Result<Vec<u8>, StoreError>) {
        let key = String::from_str(name);
        let mut i: usize = self.writes.len();
        while i > 0
            invariant
                i <= self.writes@.len(),
                key@ == name@,
                forall|j: int| i <= j < self.writes@.len() ==> (#[trigger] self.writes@[j]).name@
                    != name@,
            decreases i,
        {
            if self.writes[i - 1].name == key {
                proof {
                    lemma_vars_of_lookup(self.writes@, name@, i as int);
                    assert(self.writes@.take(i as int).drop_last() =~= self.writes@.take(
                        i - 1,
                    ));
                }
                return Ok(slice_to_vec(self.writes[i - 1].value.as_slice()));
            }
            i = i - 1;
        }
        proof {
            lemma_vars_of_lookup(self.writes@, name@, 0);
        }
        Err(StoreError::VarNotFound { name: key })
    }

    fn write(&mut self, name: &str, flags: u32, value: &[u8]) -> (r: Result<(), StoreError>) {
        let var = StoredVar { name: String::from_str(name), flags, value: slice_to_vec(value) };
        self.writes.push(var);
        assert(self.writes@.drop_last() =~= old(self).writes@);
        Ok(())
    }

    fn list_names(&self) -> (r: Result<Vec<String>, StoreError>) {
        let mut names: Vec<String> = Vec::new();
        let mut i: usize = 0;
        while i < self.writes.len()
            invariant
                i <= self.writes@.len(),
                lists_exactly(vars_of(self.writes@.take(i as int)), names@),
            decreases self.writes@.len() - i,
        {
            let name = &self.writes[i].name;
            let mut found = false;
            let mut j: usize = 0;
            while j < names.len()
                invariant
                    j <= names@.len(),
                    found == exists|m: int| 0 <= m < j && names@[m]@ == name@,
                decreases names@.len() - j,
            {
                if names[j] == *name {
                    found = true;
                }
                j = j + 1;
            }
            let ghost before = names@;
            assert(self.writes@.take(i + 1).drop_last() =~= self.writes@.take(i as int));
            if !found {
                names.push(name.clone());
                assert(names_view(names@) =~= names_view(before).push(name@));
                assert forall|s: Seq<char>| #[trigger] names_view(names@).contains(s) <==> vars_of(
                    self.writes@.take(i + 1),
                ).contains_key(s) by {
                    if names_view(before).contains(s) {
                        let m = names_view(before).index_of(s);
                        assert(names_view(names@)[m] == s);
                    }
                    if s == name@ {
                        assert(names_view(names@)[before.len() as int] == s);
                    } else if names_view(names@).contains(s) {
                        let m = names_view(names@).index_of(s);
                        assert(names_view(before)[m] == s);
                    }
                }
            } else {
                let ghost m = choose|m: int| 0 <= m < before.len() && before[m]@ == name@;
                assert(names_view(before)[m] == name@);
            }
            i = i + 1;
        }
        assert(self.writes@.take(self.writes@.len() as int) =~= self.writes@);
        Ok(names)
    }
}

} // verus!
