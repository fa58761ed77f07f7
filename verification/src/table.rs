//! A small string-keyed table.  It stands in for the two ambient maps the
//! build works against: the process-environment namespace that carries
//! propagated configurations, and the catalog of directories that exist on
//! disk together with their canonical, prefix-stripped forms.  Callers fill
//! one from the real environment or filesystem and hand it in, so the logic
//! over it stays a pure function of its inputs.

use vstd::prelude::*;

verus! {

/// A finite table from string keys to string values.  A later entry for the
/// same key shadows an earlier one; lookups see the most recent binding.
pub struct StrTable {
    entries: Vec<(String, String)>,
}

/// The binding of `key` in a sequence of entries, newest first.
spec fn entries_get(entries: Seq<(String, String)>, key: Seq<char>) -> Option<Seq<char>>
    decreases entries.len(),
{
    if entries.len() == 0 {
        None
    } else if entries[0].0@ == key {
        Some(entries[0].1@)
    } else {
        entries_get(entries.drop_first(), key)
    }
}

impl StrTable {
    /// The binding of `key` in this table.  The table is abstract to
    /// callers: everything they learn of it comes from the contracts below.
    pub closed spec fn spec_get(self, key: Seq<char>) -> Option<Seq<char>> {
        entries_get(self.entries@, key)
    }

    /// Returns the empty table.
    pub fn new() -> (r: Self)
        ensures
            forall|k: Seq<char>| r.spec_get(k) is None,
    {
        let entries: Vec<(String, String)> = Vec::new();
        Self { entries }
    }

    /// Binds `key` to `value`; any earlier binding of the same key is
    /// shadowed, and every other key keeps its binding.
    pub fn set(&mut self, key: String, value: String)
        ensures
            forall|k: Seq<char>|
                final(self).spec_get(k) == if k == key@ {
                    Some(value@)
                } else {
                    old(self).spec_get(k)
                },
    {
        let ghost before = self.entries@;
        self.entries.insert(0, (key, value));
        proof {
            assert(self.entries@.drop_first() =~= before);
        }
    }

    /// Looks `key` up, returning a copy of its value.
    pub fn get(&self, key: &String) -> (r: Option<String>)
        ensures
            match r {
                Some(v) => self.spec_get(key@) == Some(v@),
                None => self.spec_get(key@) is None,
            },
    {
        let n = self.entries.len();
        let mut i: usize = 0;
        assert(self.entries@.skip(0) =~= self.entries@);
        while i < n
            invariant
                0 <= i <= n,
                n == self.entries@.len(),
                entries_get(self.entries@.skip(i as int), key@) == entries_get(
                    self.entries@,
                    key@,
                ),
            decreases n - i,
        {
            let ghost rest = self.entries@.skip(i as int);
            assert(rest[0] == self.entries@[i as int]);
            if self.entries[i].0.eq(key) {
                let value = self.entries[i].1.clone();
                return Some(value);
            }
            proof {
                assert(rest.drop_first() =~= self.entries@.skip(i as int + 1));
            }
            i += 1;
        }
        assert(self.entries@.skip(n as int) =~= Seq::<(String, String)>::empty());
        None
    }
}

} // verus!
