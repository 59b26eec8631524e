//! A flat output row: a mapping from joined keys to JSON values.
use vstd::prelude::*;

use crate::json::{Json, JsonValue};

verus! {

/// The mathematical model of a row.
pub type RowModel = Map<Seq<char>, Json>;

/// The mapping that a sequence of entries describes; a later entry wins.
pub open spec fn entries_map(s: Seq<(String, JsonValue)>) -> RowModel
    decreases s.len(),
{
    if s.len() == 0 {
        Map::empty()
    } else {
        entries_map(s.drop_last()).insert(s.last().0@, s.last().1@)
    }
}

/// No key occurs twice among the entries.
pub open spec fn unique_keys(s: Seq<(String, JsonValue)>) -> bool {
    forall|i: int, j: int| 0 <= i < j < s.len() ==> #[trigger] s[i].0@ != #[trigger] s[j].0@
}

/// Models of a sequence of rows.
pub open spec fn rows_of(s: Seq<FlatRow>) -> Seq<RowModel> {
    s.map_values(|r: FlatRow| r@)
}

/// Every row of the sequence is well formed.
pub open spec fn all_wf(s: Seq<FlatRow>) -> bool {
    forall|i: int| 0 <= i < s.len() ==> (#[trigger] s[i]).wf()
}

proof fn lemma_entries_dom(s: Seq<(String, JsonValue)>)
    requires
        unique_keys(s),
    ensures
        forall|k: Seq<char>|
            entries_map(s).contains_key(k) <==> exists|i: int| 0 <= i < s.len() && s[i].0@ == k,
        entries_map(s).dom().finite(),
        entries_map(s).dom().len() == s.len(),
    decreases s.len(),
{
    if s.len() > 0 {
        let p = s.drop_last();
        assert(unique_keys(p)) by {
            assert forall|i: int, j: int| 0 <= i < j < p.len() implies p[i].0@ != p[j].0@ by {
                assert(p[i] == s[i] && p[j] == s[j]);
            }
        }
        lemma_entries_dom(p);
        assert forall|k: Seq<char>|
            (exists|i: int| 0 <= i < s.len() && s[i].0@ == k) implies entries_map(s).contains_key(k) by {
            let i = choose|i: int| 0 <= i < s.len() && s[i].0@ == k;
            if i < s.len() - 1 {
                assert(p[i] == s[i]);
            }
        }
        assert forall|k: Seq<char>|
            entries_map(s).contains_key(k) implies exists|i: int| 0 <= i < s.len() && s[i].0@ == k by {
            if k != s.last().0@ {
                let i = choose|i: int| 0 <= i < p.len() && p[i].0@ == k;
                assert(s[i] == p[i]);
            } else {
                assert(s[s.len() - 1].0@ == k);
            }
        }
        assert(!entries_map(p).contains_key(s.last().0@)) by {
            if entries_map(p).contains_key(s.last().0@) {
                let i = choose|i: int| 0 <= i < p.len() && p[i].0@ == s.last().0@;
                assert(s[i] == p[i]);
            }
        }
    }
}

proof fn lemma_entries_lookup(s: Seq<(String, JsonValue)>, i: int)
    requires
        unique_keys(s),
        0 <= i < s.len(),
    ensures
        entries_map(s).contains_key(s[i].0@),
        entries_map(s)[s[i].0@] == s[i].1@,
    decreases s.len(),
{
    let p = s.drop_last();
    if i < s.len() - 1 {
        assert(unique_keys(p)) by {
            assert forall|a: int, b: int| 0 <= a < b < p.len() implies p[a].0@ != p[b].0@ by {
                assert(p[a] == s[a] && p[b] == s[b]);
            }
        }
        assert(p[i] == s[i]);
        lemma_entries_lookup(p, i);
    }
}

proof fn lemma_entries_update(s: Seq<(String, JsonValue)>, i: int, e: (String, JsonValue))
    requires
        unique_keys(s),
        0 <= i < s.len(),
        s[i].0@ == e.0@,
    ensures
        entries_map(s.update(i, e)) == entries_map(s).insert(e.0@, e.1@),
        unique_keys(s.update(i, e)),
    decreases s.len(),
{
    let t = s.update(i, e);
    let p = s.drop_last();
    assert(unique_keys(p)) by {
        assert forall|a: int, b: int| 0 <= a < b < p.len() implies p[a].0@ != p[b].0@ by {
            assert(p[a] == s[a] && p[b] == s[b]);
        }
    }
    assert(unique_keys(t)) by {
        assert forall|a: int, b: int| 0 <= a < b < t.len() implies t[a].0@ != t[b].0@ by {
            assert(s[a].0@ != s[b].0@);
        }
    }
    if i == s.len() - 1 {
        assert(t.drop_last() =~= p);
        assert(entries_map(t) =~= entries_map(s).insert(e.0@, e.1@));
    } else {
        lemma_entries_update(p, i, e);
        assert(t.drop_last() =~= p.update(i, e));
        assert(s.last().0@ != e.0@) by {
            assert(s[i].0@ != s[s.len() - 1].0@);
        }
        assert(entries_map(t) =~= entries_map(s).insert(e.0@, e.1@));
    }
}

/// One output row. Keys are unique; the order of the entries carries no meaning.
#[derive(Debug, PartialEq)]
pub struct FlatRow {
    entries: Vec<(String, JsonValue)>,
}

impl View for FlatRow {
    type V = RowModel;

    closed spec fn view(&self) -> RowModel {
        entries_map(self.entries@)
    }
}

impl FlatRow {
    pub closed spec fn wf(&self) -> bool {
        unique_keys(self.entries@)
    }

    /// An empty row.
    pub fn new() -> (r: FlatRow)
        ensures
            r.wf(),
            r@ == RowModel::empty(),
    {
        FlatRow { entries: Vec::new() }
    }

    /// The number of keys in the row.
    pub fn len(&self) -> (r: usize)
        requires
            self.wf(),
        ensures
            r == self@.dom().len(),
    {
        proof {
            lemma_entries_dom(self.entries@);
        }
        self.entries.len()
    }

    /// Whether the row has no key.
    pub fn is_empty(&self) -> (r: bool)
        requires
            self.wf(),
        ensures
            r == (self@.dom().len() == 0),
    {
        self.len() == 0
    }

    fn position(&self, key: &String) -> (r: Option<usize>)
        requires
            self.wf(),
        ensures
            match r {
                Some(i) => i < self.entries@.len() && self.entries@[i as int].0@ == key@,
                None => !self@.contains_key(key@),
            },
    {
        proof {
            lemma_entries_dom(self.entries@);
        }
        let mut i: usize = 0;
        while i < self.entries.len()
            invariant
                i <= self.entries@.len(),
                forall|j: int| 0 <= j < i ==> self.entries@[j].0@ != key@,
            decreases self.entries@.len() - i,
        {
            if self.entries[i].0 == *key {
                return Some(i);
            }
            i += 1;
        }
        None
    }

    /// The value stored under `key`.
    pub fn get(&self, key: &str) -> (r: Option<&JsonValue>)
        requires
            self.wf(),
        ensures
            match r {
                Some(v) => self@.contains_key(key@) && self@[key@] == v@,
                None => !self@.contains_key(key@),
            },
    {
        let k = key.to_owned();
        match self.position(&k) {
            Some(i) => {
                proof {
                    lemma_entries_lookup(self.entries@, i as int);
                }
                Some(&self.entries[i].1)
            },
            None => None,
        }
    }

    /// Sets `key` to `value`, replacing what the key held.
    pub fn insert(&mut self, key: String, value: JsonValue)
        requires
            old(self).wf(),
        ensures
            final(self).wf(),
            final(self)@ == old(self)@.insert(key@, value@),
    {
        match self.position(&key) {
            Some(i) => {
                proof {
                    lemma_entries_update(self.entries@, i as int, (key, value));
                }
                self.entries.set(i, (key, value));
            },
            None => {
                proof {
                    lemma_entries_dom(self.entries@);
                }
                self.entries.push((key, value));
                assert(self.entries@.drop_last() =~= old(self).entries@);
                assert(unique_keys(self.entries@)) by {
                    assert forall|a: int, b: int|
                        0 <= a < b < self.entries@.len() implies self.entries@[a].0@
                        != self.entries@[b].0@ by {
                        if b == self.entries@.len() - 1 {
                            assert(old(self).entries@[a] == self.entries@[a]);
                        } else {
                            assert(old(self).entries@[a] == self.entries@[a]);
                            assert(old(self).entries@[b] == self.entries@[b]);
                        }
                    }
                }
            },
        }
    }

    /// A copy of the row that shares nothing with it.
    pub fn copy(&self) -> (r: FlatRow)
        requires
            self.wf(),
        ensures
            r.wf(),
            r@ == self@,
    {
        let mut out: Vec<(String, JsonValue)> = Vec::new();
        let mut i: usize = 0;
        while i < self.entries.len()
            invariant
                i <= self.entries@.len(),
                out@.len() == i,
                forall|j: int|
                    0 <= j < i ==> (#[trigger] out@[j]).0@ == self.entries@[j].0@ && out@[j].1@
                        == self.entries@[j].1@,
            decreases self.entries@.len() - i,
        {
            let v = self.entries[i].1.deep_copy();
            out.push((self.entries[i].0.clone(), v));
            i += 1;
        }
        proof {
            lemma_same_entries(out@, self.entries@);
        }
        FlatRow { entries: out }
    }

    /// The entries of the row, each key once.
    pub fn entries(&self) -> (r: &Vec<(String, JsonValue)>)
        requires
            self.wf(),
        ensures
            entries_map(r@) == self@,
            unique_keys(r@),
    {
        &self.entries
    }
}

proof fn lemma_same_entries(a: Seq<(String, JsonValue)>, b: Seq<(String, JsonValue)>)
    requires
        a.len() == b.len(),
        forall|j: int| 0 <= j < a.len() ==> (#[trigger] a[j]).0@ == b[j].0@ && a[j].1@ == b[j].1@,
    ensures
        entries_map(a) == entries_map(b),
        unique_keys(b) ==> unique_keys(a),
    decreases a.len(),
{
    if a.len() > 0 {
        lemma_same_entries(a.drop_last(), b.drop_last());
    }
}

} // verus!
