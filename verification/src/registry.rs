//! The local registry: which version of each tool is installed, and its entry point.

use vstd::prelude::*;

verus! {

/// One installed tool.
pub struct Installed {
    pub version: String,
    pub entrypoint: String,
    pub installed_at: String,
}

/// The installed tools, keyed by `owner/repo`; a key occurs at most once.
pub struct Registry {
    entries: Vec<(String, Installed)>,
}

/// The map that a list of entries with distinct keys stands for.
pub open spec fn entries_map(s: Seq<(String, Installed)>) -> Map<Seq<char>, Installed>
    decreases s.len(),
{
    if s.len() == 0 {
        Map::empty()
    } else {
        entries_map(s.drop_last()).insert(s.last().0@, s.last().1)
    }
}

/// No key occurs twice.
pub open spec fn distinct_keys(s: Seq<(String, Installed)>) -> bool {
    forall|i: int, j: int| 0 <= i < j < s.len() ==> #[trigger] s[i].0@ != #[trigger] s[j].0@
}

/// The map holds exactly the keys of the entries, each with its entry's value.
proof fn lemma_entries_map(s: Seq<(String, Installed)>)
    requires
        distinct_keys(s),
    ensures
        forall|i: int|
            0 <= i < s.len() ==> #[trigger] entries_map(s).contains_key(s[i].0@)
                && entries_map(s)[s[i].0@] == s[i].1,
        forall|k: Seq<char>|
            #[trigger] entries_map(s).contains_key(k) ==> exists|i: int|
                0 <= i < s.len() && #[trigger] s[i].0@ == k,
    decreases s.len(),
{
    if s.len() > 0 {
        let t = s.drop_last();
        assert(distinct_keys(t));
        lemma_entries_map(t);
        assert forall|i: int| 0 <= i < s.len() implies #[trigger] entries_map(s).contains_key(
            s[i].0@,
        ) && entries_map(s)[s[i].0@] == s[i].1 by {
            if i < s.len() - 1 {
                assert(t[i] == s[i]);
                assert(entries_map(t).contains_key(t[i].0@));
                assert(s[i].0@ != s[s.len() - 1].0@);
            }
        }
        assert forall|k: Seq<char>| #[trigger] entries_map(s).contains_key(k) implies exists|
            i: int,
        | 0 <= i < s.len() && #[trigger] s[i].0@ == k by {
            if k != s.last().0@ {
                assert(entries_map(t).contains_key(k));
                let i = choose|i: int| 0 <= i < t.len() && #[trigger] t[i].0@ == k;
                assert(s[i] == t[i]);
            } else {
                assert(s[s.len() - 1].0@ == k);
            }
        }
    }
}

/// Replacing the value of an entry changes the map at that key only.
proof fn lemma_entries_map_update(s: Seq<(String, Installed)>, i: int, e: (String, Installed))
    requires
        distinct_keys(s),
        0 <= i < s.len(),
        e.0@ == s[i].0@,
    ensures
        distinct_keys(s.update(i, e)),
        entries_map(s.update(i, e)) == entries_map(s).insert(e.0@, e.1),
    decreases s.len(),
{
    let u = s.update(i, e);
    assert(distinct_keys(u)) by {
        assert forall|a: int, b: int| 0 <= a < b < u.len() implies #[trigger] u[a].0@
            != #[trigger] u[b].0@ by {
            assert(u[a].0@ == s[a].0@);
            assert(u[b].0@ == s[b].0@);
        }
    }
    if i == s.len() - 1 {
        assert(u.drop_last() =~= s.drop_last());
    } else {
        let t = s.drop_last();
        assert(u.drop_last() =~= t.update(i, e));
        assert(distinct_keys(t));
        lemma_entries_map_update(t, i, e);
        assert(s.last().0@ != e.0@) by {
            assert(s[i].0@ != s[s.len() - 1].0@);
        }
        assert(entries_map(u) =~= entries_map(s).insert(e.0@, e.1));
    }
}

impl Registry {
    /// The registry as a map from key to installed tool.
    pub closed spec fn view(&self) -> Map<Seq<char>, Installed> {
        entries_map(self.entries@)
    }

    /// No key occurs twice.
    #[verifier::type_invariant]
    closed spec fn keys_distinct(&self) -> bool {
        distinct_keys(self.entries@)
    }

    /// An empty registry.
    pub fn new() -> (r: Registry)
        ensures
            r.view() == Map::<Seq<char>, Installed>::empty(),
    {
        Registry { entries: Vec::new() }
    }

    /// The number of installed tools.
    pub fn len(&self) -> (n: usize)
        ensures
            self.view().dom().finite(),
            n == self.view().dom().len(),
    {
        proof {
            use_type_invariant(self);
            lemma_map_len(self.entries@);
            lemma_map_finite(self.entries@);
        }
        self.entries.len()
    }

    /// The entries of the registry, each key once, standing for its map.
    pub fn entries(&self) -> (r: &[(String, Installed)])
        ensures
            entries_map(r@) == self.view(),
            distinct_keys(r@),
    {
        proof {
            use_type_invariant(self);
        }
        self.entries.as_slice()
    }

    /// The position of `key`, if it is recorded.
    fn position(&self, key: &str) -> (r: Option<usize>)
        ensures
            match r {
                Some(i) => i < self.entries@.len() && self.entries@[i as int].0@ == key@,
                None => !self.view().contains_key(key@),
            },
    {
        proof {
            use_type_invariant(self);
            lemma_entries_map(self.entries@);
        }
        let k = String::from_str(key);
        let n = self.entries.len();
        let mut i: usize = 0;
        while i < n
            invariant
                n == self.entries@.len(),
                k@ == key@,
                i <= n,
                forall|j: int| 0 <= j < i ==> #[trigger] self.entries@[j].0@ != key@,
            decreases n - i,
        {
            if self.entries[i].0 == k {
                return Some(i);
            }
            i = i + 1;
        }
        None
    }

    /// The tool recorded under `key`.
    pub fn get(&self, key: &str) -> (r: Option<&Installed>)
        ensures
            match r {
                Some(v) => self.view().contains_key(key@) && *v == self.view()[key@],
                None => !self.view().contains_key(key@),
            },
    {
        proof {
            use_type_invariant(self);
            lemma_entries_map(self.entries@);
        }
        match self.position(key) {
            Some(i) => {
                assert(entries_map(self.entries@).contains_key(self.entries@[i as int].0@));
                Some(&self.entries[i].1)
            },
            None => None,
        }
    }

    /// Records `value` under `key`, in place of what was recorded there.
    pub fn insert(&mut self, key: String, value: Installed)
        ensures
            final(self).view() == old(self).view().insert(key@, value),
    {
        proof {
            use_type_invariant(&*self);
            lemma_entries_map(self.entries@);
        }
        let found = self.position(key.as_str());
        let mut entries: Vec<(String, Installed)> = Vec::new();
        std::mem::swap(&mut entries, &mut self.entries);
        let ghost s = entries@;
        match found {
            Some(i) => {
                proof {
                    lemma_entries_map_update(s, i as int, (key, value));
                }
                entries.set(i, (key, value));
            },
            None => {
                entries.push((key, value));
                assert(entries@.drop_last() =~= s);
                assert(distinct_keys(entries@)) by {
                    assert forall|a: int, b: int| 0 <= a < b < entries@.len() implies #[trigger] entries@[a].0@
                        != #[trigger] entries@[b].0@ by {
                        if b == s.len() {
                            assert(s[a] == entries@[a]);
                            assert(entries_map(s).contains_key(s[a].0@));
                        } else {
                            assert(s[a] == entries@[a]);
                            assert(s[b] == entries@[b]);
                        }
                    }
                }
            },
        }
        self.entries = entries;
    }

}

proof fn lemma_map_finite(s: Seq<(String, Installed)>)
    ensures
        entries_map(s).dom().finite(),
    decreases s.len(),
{
    if s.len() > 0 {
        lemma_map_finite(s.drop_last());
    }
}

proof fn lemma_map_len(s: Seq<(String, Installed)>)
    requires
        distinct_keys(s),
    ensures
        entries_map(s).dom().len() == s.len(),
    decreases s.len(),
{
    if s.len() > 0 {
        let t = s.drop_last();
        assert(distinct_keys(t));
        lemma_map_len(t);
        lemma_map_finite(t);
        lemma_entries_map(t);
        assert(!entries_map(t).contains_key(s.last().0@)) by {
            if entries_map(t).contains_key(s.last().0@) {
                let i = choose|i: int| 0 <= i < t.len() && #[trigger] t[i].0@ == s.last().0@;
                assert(s[i] == t[i]);
            }
        }
    }
}


/// Reading after a write: the key written gives the value written, and every
/// other key gives what it gave before.
pub proof fn law_get_after_insert(
    before: Registry,
    after: Registry,
    key: Seq<char>,
    value: Installed,
    other: Seq<char>,
)
    requires
        after.view() == before.view().insert(key, value),
    ensures
        after.view().contains_key(key),
        after.view()[key] == value,
        other != key ==> after.view().contains_key(other) == before.view().contains_key(other),
        other != key && before.view().contains_key(other) ==> after.view()[other]
            == before.view()[other],
{
}

} // verus!
