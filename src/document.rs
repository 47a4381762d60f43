//! The decrypted content of a vault: a mapping from secret name to secret value.
use vstd::prelude::*;

use crate::text::same_text;

verus! {

/// No two entries share a name.
pub open spec fn unique_names(s: Seq<(String, String)>) -> bool {
    forall|i: int, j: int| 0 <= i < j < s.len() ==> (#[trigger] s[i]).0@ != (#[trigger] s[j]).0@
}

/// The mapping that a list of entries describes; a later entry wins over an
/// earlier one with the same name.
pub open spec fn entries_map(s: Seq<(String, String)>) -> Map<Seq<char>, Seq<char>>
    decreases s.len(),
{
    if s.len() == 0 {
        Map::empty()
    } else {
        entries_map(s.drop_last()).insert(s.last().0@, s.last().1@)
    }
}

/// A name is in the mapping exactly when some entry carries it.
pub proof fn lemma_entries_map_dom(s: Seq<(String, String)>, k: Seq<char>)
    ensures
        entries_map(s).contains_key(k) <==> exists|i: int| 0 <= i < s.len() && (#[trigger] s[i]).0@ == k,
    decreases s.len(),
{
    if s.len() > 0 {
        lemma_entries_map_dom(s.drop_last(), k);
        if entries_map(s.drop_last()).contains_key(k) {
            let i = choose|i: int| 0 <= i < s.drop_last().len() && (#[trigger] s.drop_last()[i]).0@ == k;
            assert(s[i] == s.drop_last()[i]);
        }
        if exists|i: int| 0 <= i < s.len() && (#[trigger] s[i]).0@ == k {
            let i = choose|i: int| 0 <= i < s.len() && (#[trigger] s[i]).0@ == k;
            if i < s.len() - 1 {
                assert(s.drop_last()[i] == s[i]);
            }
        }
    }
}

/// With unique names, each entry's value is what the mapping holds for its name.
pub proof fn lemma_entries_map_value(s: Seq<(String, String)>, i: int)
    requires
        unique_names(s),
        0 <= i < s.len(),
    ensures
        entries_map(s).contains_key(s[i].0@),
        entries_map(s)[s[i].0@] == s[i].1@,
    decreases s.len(),
{
    if i < s.len() - 1 {
        let t = s.drop_last();
        assert(t[i] == s[i]);
        assert(unique_names(t)) by {
            assert forall|a: int, b: int| 0 <= a < b < t.len() implies (#[trigger] t[a]).0@ != (
            #[trigger] t[b]).0@ by {
                assert(t[a] == s[a] && t[b] == s[b]);
            }
        }
        lemma_entries_map_value(t, i);
        assert(s[i].0@ != s.last().0@);
    }
}

/// With unique names the mapping is finite and has one key per entry.
pub proof fn lemma_entries_map_len(s: Seq<(String, String)>)
    requires
        unique_names(s),
    ensures
        entries_map(s).dom().finite(),
        entries_map(s).len() == s.len(),
    decreases s.len(),
{
    if s.len() > 0 {
        let t = s.drop_last();
        assert(unique_names(t)) by {
            assert forall|a: int, b: int| 0 <= a < b < t.len() implies (#[trigger] t[a]).0@ != (
            #[trigger] t[b]).0@ by {
                assert(t[a] == s[a] && t[b] == s[b]);
            }
        }
        lemma_entries_map_len(t);
        lemma_entries_map_dom(t, s.last().0@);
        if entries_map(t).contains_key(s.last().0@) {
            let i = choose|i: int| 0 <= i < t.len() && (#[trigger] t[i]).0@ == s.last().0@;
            assert(t[i] == s[i]);
        }
    }
}

/// The mapping of any list of entries is finite.
pub proof fn lemma_entries_map_finite(s: Seq<(String, String)>)
    ensures
        entries_map(s).dom().finite(),
    decreases s.len(),
{
    if s.len() > 0 {
        lemma_entries_map_finite(s.drop_last());
    }
}

/// A vault's decrypted document: secret names mapped to secret values, each
/// name at most once.
pub struct VaultDocument {
    entries: Vec<(String, String)>,
}

impl View for VaultDocument {
    type V = Map<Seq<char>, Seq<char>>;

    closed spec fn view(&self) -> Map<Seq<char>, Seq<char>> {
        entries_map(self.entries@)
    }
}

impl VaultDocument {
    /// Well-formed: no name is stored twice.
    pub closed spec fn wf(&self) -> bool {
        unique_names(self.entries@)
    }

    /// The entries in their stored order.
    pub closed spec fn entry_seq(&self) -> Seq<(String, String)> {
        self.entries@
    }

    /// The document holds finitely many names.
    pub proof fn lemma_view_finite(&self)
        ensures
            self@.dom().finite(),
    {
        lemma_entries_map_finite(self.entries@);
    }

    /// The empty document.
    pub fn new() -> (r: Self)
        ensures
            r.wf(),
            r@ == Map::<Seq<char>, Seq<char>>::empty(),
    {
        VaultDocument { entries: Vec::new() }
    }

    /// The document that a list of entries with unique names describes.
    pub fn from_entries(entries: Vec<(String, String)>) -> (r: Self)
        requires
            unique_names(entries@),
        ensures
            r.wf(),
            r@ == entries_map(entries@),
            r.entry_seq() == entries@,
    {
        VaultDocument { entries }
    }

    /// The entries, each name once.
    pub fn entries(&self) -> (r: &Vec<(String, String)>)
        requires
            self.wf(),
        ensures
            r@ == self.entry_seq(),
            unique_names(r@),
            entries_map(r@) == self@,
    {
        &self.entries
    }

    /// Number of secrets in the document.
    pub fn len(&self) -> (r: usize)
        requires
            self.wf(),
        ensures
            r == self@.len(),
    {
        proof {
            lemma_entries_map_len(self.entries@);
        }
        self.entries.len()
    }

    /// Index of the entry named `name`, if there is one.
    fn position(&self, name: &str) -> (r: Option<usize>)
        ensures
            match r {
                Some(i) => i < self.entries@.len() && self.entries@[i as int].0@ == name@,
                None => forall|j: int| 0 <= j < self.entries@.len() ==> (#[trigger] self.entries@[j]).0@ != name@,
            },
    {
        let n = self.entries.len();
        let mut i: usize = 0;
        while i < n
            invariant
                n == self.entries@.len(),
                i <= n,
                forall|j: int| 0 <= j < i ==> (#[trigger] self.entries@[j]).0@ != name@,
            decreases n - i,
        {
            if same_text(self.entries[i].0.as_str(), name) {
                return Some(i);
            }
            i += 1;
        }
        None
    }

    /// The value stored under `name`, if any.
    pub fn get(&self, name: &str) -> (r: Option<&String>)
        requires
            self.wf(),
        ensures
            match r {
                Some(v) => self@.contains_key(name@) && self@[name@] == v@,
                None => !self@.contains_key(name@),
            },
    {
        match self.position(name) {
            Some(i) => {
                proof {
                    lemma_entries_map_value(self.entries@, i as int);
                }
                Some(&self.entries[i].1)
            },
            None => {
                proof {
                    lemma_entries_map_dom(self.entries@, name@);
                }
                None
            },
        }
    }

    /// Stores `value` under `name`, replacing any value the name had.
    pub fn insert(&mut self, name: String, value: String)
        requires
            old(self).wf(),
        ensures
            final(self).wf(),
            final(self)@ == old(self)@.insert(name@, value@),
    {
        let ghost old_entries = self.entries@;
        let found = self.position(name.as_str());
        let ghost k = name@;
        let ghost v = value@;
        if let Some(i) = found {
            self.entries.set(i, (name, value));
            proof {
                let s = self.entries@;
                assert(unique_names(s)) by {
                    assert forall|a: int, b: int| 0 <= a < b < s.len() implies (#[trigger] s[a]).0@
                        != (#[trigger] s[b]).0@ by {
                        assert(old_entries[a].0@ != old_entries[b].0@);
                        assert(s[i as int].0@ == old_entries[i as int].0@);
                        if a != i && b != i {
                            assert(s[a] == old_entries[a] && s[b] == old_entries[b]);
                        } else if a == i {
                            assert(s[b] == old_entries[b]);
                        } else {
                            assert(s[a] == old_entries[a]);
                        }
                    }
                }
                let m = entries_map(old_entries).insert(k, v);
                assert forall|key: Seq<char>| entries_map(s).contains_key(key) <==> m.contains_key(key) by {
                    lemma_entries_map_dom(s, key);
                    lemma_entries_map_dom(old_entries, key);
                    if exists|j: int| 0 <= j < old_entries.len() && (#[trigger] old_entries[j]).0@ == key {
                        let j = choose|j: int| 0 <= j < old_entries.len() && (#[trigger] old_entries[j]).0@ == key;
                        if j != i {
                            assert(s[j] == old_entries[j]);
                        }
                        assert(s[j].0@ == key);
                    }
                    if exists|j: int| 0 <= j < s.len() && (#[trigger] s[j]).0@ == key {
                        let j = choose|j: int| 0 <= j < s.len() && (#[trigger] s[j]).0@ == key;
                        if j != i {
                            assert(s[j] == old_entries[j]);
                        }
                        assert(old_entries[j].0@ == key);
                    }
                }
                assert forall|key: Seq<char>| #[trigger] entries_map(s).contains_key(key) implies entries_map(s)[key] == m[key] by {
                    lemma_entries_map_dom(s, key);
                    let j = choose|j: int| 0 <= j < s.len() && (#[trigger] s[j]).0@ == key;
                    lemma_entries_map_value(s, j);
                    if j != i {
                        assert(old_entries[j] == s[j]);
                        lemma_entries_map_value(old_entries, j);
                    }
                }
                assert(entries_map(s) =~= m);
            }
        } else {
            self.entries.push((name, value));
            proof {
                let s = self.entries@;
                assert(s.drop_last() =~= old_entries);
                assert(unique_names(s)) by {
                    assert forall|a: int, b: int| 0 <= a < b < s.len() implies (#[trigger] s[a]).0@
                        != (#[trigger] s[b]).0@ by {
                        if b < old_entries.len() {
                            assert(old_entries[a].0@ != old_entries[b].0@);
                        } else {
                            assert(s[a] == old_entries[a]);
                        }
                    }
                }
            }
        }
    }
}

/// Storing a value under a name the document already holds replaces that
/// value and leaves the set of names, and so the size, unchanged.
pub proof fn lemma_merge_overwrite(d: VaultDocument, name: Seq<char>, v1: Seq<char>, v2: Seq<char>)
    requires
        d@.contains_key(name),
        d@[name] == v1,
    ensures
        d@.insert(name, v2)[name] == v2,
        d@.insert(name, v2).dom() == d@.dom(),
        d@.insert(name, v2).len() == d@.len(),
{
    d.lemma_view_finite();
    assert(d@.insert(name, v2).dom() =~= d@.dom());
}

} // verus!
