use vstd::prelude::*;

verus! {

/// Whether the name `k` occurs among the entries.
pub open spec fn has_key<V>(entries: Seq<(String, V)>, k: Seq<char>) -> bool {
    exists|i: int| 0 <= i < entries.len() && entries[i].0@ == k
}

/// The index at which the name `k` stands; meaningful only when
/// `has_key(entries, k)` holds.
pub open spec fn index_of<V>(entries: Seq<(String, V)>, k: Seq<char>) -> int {
    choose|i: int| 0 <= i < entries.len() && entries[i].0@ == k
}

/// No two entries carry the same name.
pub open spec fn unique_keys<V>(entries: Seq<(String, V)>) -> bool {
    forall|i: int, j: int| 0 <= i < j < entries.len() ==> entries[i].0@ != entries[j].0@
}

/// The mapping from names to values that the entries denote.
pub open spec fn as_map<V>(entries: Seq<(String, V)>) -> Map<Seq<char>, V> {
    Map::new(
        |k: Seq<char>| has_key(entries, k),
        |k: Seq<char>| entries[index_of(entries, k)].1,
    )
}

proof fn lemma_at_index<V>(entries: Seq<(String, V)>, i: int)
    requires
        unique_keys(entries),
        0 <= i < entries.len(),
    ensures
        has_key(entries, entries[i].0@),
        index_of(entries, entries[i].0@) == i,
        as_map(entries).contains_key(entries[i].0@),
        as_map(entries)[entries[i].0@] == entries[i].1,
{
    assert(has_key(entries, entries[i].0@));
    let j = index_of(entries, entries[i].0@);
    assert(0 <= j < entries.len() && entries[j].0@ == entries[i].0@);
    if j != i {
        assert(false);
    }
}

/// A registry of entries keyed by service name: text, case-sensitive, each
/// name present at most once. Insertion order is irrelevant; the view is the
/// mapping from names to values. A name is absent exactly when it was never
/// inserted or was removed since.
pub struct ServiceMap<V> {
    entries: Vec<(String, V)>,
}

impl<V> View for ServiceMap<V> {
    type V = Map<Seq<char>, V>;

    closed spec fn view(&self) -> Map<Seq<char>, V> {
        as_map(self.entries@)
    }
}

impl<V> ServiceMap<V> {
    /// Well-formedness: no name occurs twice among the entries. Established
    /// by `new` and preserved by every method.
    pub closed spec fn wf(&self) -> bool {
        unique_keys(self.entries@)
    }

    /// An empty registry.
    pub fn new() -> (r: ServiceMap<V>)
        ensures
            r.wf(),
            r@ == Map::<Seq<char>, V>::empty(),
    {
        let r = ServiceMap { entries: Vec::new() };
        proof {
            assert(r@ =~= Map::<Seq<char>, V>::empty());
        }
        r
    }

    /// How many names are present.
    pub fn len(&self) -> (n: usize)
        requires
            self.wf(),
        ensures
            n == self@.dom().len(),
    {
        proof {
            lemma_card(self.entries@);
        }
        self.entries.len()
    }

    /// Look the name up, without changing anything.
    pub fn get(&self, name: &String) -> (r: Option<&V>)
        requires
            self.wf(),
        ensures
            match r {
                Some(v) => self@.contains_key(name@) && *v == self@[name@],
                None => !self@.contains_key(name@),
            },
    {
        let n = self.entries.len();
        let mut i: usize = 0;
        while i < n
            invariant
                n == self.entries@.len(),
                0 <= i <= n,
                unique_keys(self.entries@),
                self@ == as_map(self.entries@),
                forall|j: int| 0 <= j < i ==> self.entries@[j].0@ != name@,
            decreases n - i,
        {
            if self.entries[i].0 == *name {
                proof {
                    lemma_at_index(self.entries@, i as int);
                }
                return Some(&self.entries[i].1);
            }
            i = i + 1;
        }
        proof {
            assert(!has_key(self.entries@, name@));
        }
        None
    }

    /// Evict the name. Returns the value that was present, or `None` when
    /// the name was absent, in which case nothing changes.
    pub fn remove(&mut self, name: &String) -> (r: Option<V>)
        requires
            old(self).wf(),
        ensures
            final(self).wf(),
            old(self)@.contains_key(name@) ==> (r matches Some(v) && v == old(self)@[name@]
                && final(self)@ == old(self)@.remove(name@)),
            !old(self)@.contains_key(name@) ==> r is None && final(self)@ == old(self)@,
    {
        let n = self.entries.len();
        let mut i: usize = 0;
        while i < n
            invariant
                *self == *old(self),
                n == self.entries@.len(),
                0 <= i <= n,
                unique_keys(self.entries@),
                forall|j: int| 0 <= j < i ==> self.entries@[j].0@ != name@,
            decreases n - i,
        {
            if self.entries[i].0 == *name {
                proof {
                    lemma_at_index(self.entries@, i as int);
                }
                let v = self.entries.remove(i);
                proof {
                    lemma_remove_entry(old(self).entries@, i as int);
                    assert(final(self)@ == old(self)@.remove(name@));
                }
                return Some(v.1);
            }
            i = i + 1;
        }
        proof {
            assert(!has_key(self.entries@, name@));
        }
        None
    }

    /// Insert the name with the given value, replacing any prior entry for
    /// it. Returns whether a prior entry was replaced.
    pub fn insert(&mut self, name: String, value: V) -> (replaced: bool)
        requires
            old(self).wf(),
        ensures
            final(self).wf(),
            replaced == old(self)@.contains_key(name@),
            final(self)@ == old(self)@.insert(name@, value),
    {
        let prior = self.remove(&name);
        proof {
            if !as_map(self.entries@).contains_key(name@) {
                assert(!has_key(self.entries@, name@));
            }
            lemma_push_fresh(self.entries@, name, value);
            if old(self)@.contains_key(name@) {
                assert(old(self)@.remove(name@).insert(name@, value) =~= old(self)@.insert(
                    name@,
                    value,
                ));
            }
        }
        self.entries.push((name, value));
        prior.is_some()
    }
}

proof fn lemma_remove_entry<V>(entries: Seq<(String, V)>, i: int)
    requires
        unique_keys(entries),
        0 <= i < entries.len(),
    ensures
        unique_keys(entries.remove(i)),
        as_map(entries.remove(i)) == as_map(entries).remove(entries[i].0@),
{
    let k = entries[i].0@;
    let rest = entries.remove(i);
    assert forall|a: int, b: int| 0 <= a < b < rest.len() implies rest[a].0@ != rest[b].0@ by {
        let a0 = if a < i {
            a
        } else {
            a + 1
        };
        let b0 = if b < i {
            b
        } else {
            b + 1
        };
        assert(rest[a] == entries[a0]);
        assert(rest[b] == entries[b0]);
    }
    assert forall|q: Seq<char>| has_key(rest, q) implies has_key(entries, q) && q != k by {
        let a = choose|a: int| 0 <= a < rest.len() && rest[a].0@ == q;
        let a0 = if a < i {
            a
        } else {
            a + 1
        };
        assert(rest[a] == entries[a0]);
        assert(entries[a0].0@ == q);
        if q == k {
            lemma_at_index(entries, a0);
            lemma_at_index(entries, i);
        }
    }
    assert forall|q: Seq<char>| has_key(entries, q) && q != k implies has_key(rest, q) by {
        let a0 = choose|a0: int| 0 <= a0 < entries.len() && entries[a0].0@ == q;
        if a0 < i {
            assert(rest[a0] == entries[a0]);
            assert(has_key(rest, q));
        } else {
            assert(a0 != i);
            assert(rest[a0 - 1] == entries[a0]);
            assert(has_key(rest, q));
        }
    }
    assert forall|q: Seq<char>| has_key(rest, q) implies as_map(rest)[q] == as_map(entries)[q] by {
        let a = index_of(rest, q);
        assert(0 <= a < rest.len() && rest[a].0@ == q);
        let a0 = if a < i {
            a
        } else {
            a + 1
        };
        assert(rest[a] == entries[a0]);
        lemma_at_index(rest, a);
        lemma_at_index(entries, a0);
    }
    assert(as_map(rest) =~= as_map(entries).remove(k));
}

proof fn lemma_push_fresh<V>(entries: Seq<(String, V)>, name: String, value: V)
    requires
        unique_keys(entries),
        !has_key(entries, name@),
    ensures
        unique_keys(entries.push((name, value))),
        as_map(entries.push((name, value))) == as_map(entries).insert(name@, value),
{
    let grown = entries.push((name, value));
    let m = entries.len() as int;
    assert forall|a: int, b: int| 0 <= a < b < grown.len() implies grown[a].0@ != grown[b].0@ by {
        if b < m {
            assert(grown[a] == entries[a]);
            assert(grown[b] == entries[b]);
        } else {
            assert(grown[a] == entries[a]);
            assert(grown[b].0@ == name@);
            assert(entries[a].0@ != name@);
        }
    }
    assert forall|q: Seq<char>| has_key(grown, q) implies (q == name@ || has_key(entries, q)) by {
        let a = choose|a: int| 0 <= a < grown.len() && grown[a].0@ == q;
        if a < m {
            assert(grown[a] == entries[a]);
        }
    }
    assert forall|q: Seq<char>| has_key(entries, q) implies has_key(grown, q) by {
        let a = choose|a: int| 0 <= a < entries.len() && entries[a].0@ == q;
        assert(grown[a] == entries[a]);
    }
    assert(grown[m] == (name, value));
    assert(has_key(grown, name@));
    lemma_at_index(grown, m);
    assert forall|q: Seq<char>| has_key(entries, q) implies as_map(grown)[q] == as_map(entries)[q] by {
        let a = index_of(entries, q);
        assert(0 <= a < entries.len() && entries[a].0@ == q);
        assert(grown[a] == entries[a]);
        lemma_at_index(entries, a);
        lemma_at_index(grown, a);
    }
    assert(as_map(grown) =~= as_map(entries).insert(name@, value));
}

proof fn lemma_card<V>(entries: Seq<(String, V)>)
    requires
        unique_keys(entries),
    ensures
        as_map(entries).dom().finite(),
        as_map(entries).dom().len() == entries.len(),
    decreases entries.len(),
{
    if entries.len() == 0 {
        assert(as_map(entries).dom() =~= Set::<Seq<char>>::empty());
    } else {
        let m = entries.len() as int - 1;
        let shrunk = entries.remove(m);
        lemma_remove_entry(entries, m);
        lemma_card(shrunk);
        lemma_at_index(entries, m);
        assert(as_map(shrunk).dom() =~= as_map(entries).dom().remove(entries[m].0@));
    }
}

}
