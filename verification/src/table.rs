//! A hash table from 32-bit identifiers to positions in a list.
//!
//! The table is `bevy::utils::HashMap<u32, usize>`. Verus does not look inside
//! it: what it holds is named by [`table_entries`], and the three operations
//! below state, over that name, what the map's `new`, `insert` and `get` do.
use vstd::prelude::*;

verus! {

/// A `bevy::utils::HashMap<u32, usize>`, opaque to the verifier.
#[verifier::external_body]
pub struct IndexTable {
    inner: bevy::utils::HashMap<u32, usize>,
}

/// The key-value pairs that a table holds.
pub uninterp spec fn table_entries(table: IndexTable) -> Map<u32, usize>;

impl View for IndexTable {
    type V = Map<u32, usize>;

    open spec fn view(&self) -> Map<u32, usize> {
        table_entries(*self)
    }
}

impl IndexTable {
    /// `HashMap::new`: a table that holds nothing.
    #[verifier::external_body]
    pub(crate) fn new() -> (fresh: IndexTable)
        ensures
            table_entries(fresh).dom() == Set::<u32>::empty(),
    {
        IndexTable { inner: bevy::utils::HashMap::new() }
    }

    /// `HashMap::insert`: afterwards `key` maps to `value` and every other key
    /// is as before; the result is the value that `key` had, if it had one.
    #[verifier::external_body]
    pub(crate) fn insert(&mut self, key: u32, value: usize) -> (previous: Option<usize>)
        ensures
            table_entries(*final(self)) == table_entries(*old(self)).insert(key, value),
            previous == if table_entries(*old(self)).contains_key(key) {
                Some(table_entries(*old(self))[key])
            } else {
                None::<usize>
            },
    {
        self.inner.insert(key, value)
    }

    /// `HashMap::get`: the value that `key` maps to, if the table has the key.
    #[verifier::external_body]
    pub(crate) fn get(&self, key: u32) -> (found: Option<usize>)
        ensures
            found == if table_entries(*self).contains_key(key) {
                Some(table_entries(*self)[key])
            } else {
                None::<usize>
            },
    {
        self.inner.get(&key).copied()
    }
}

} // verus!
