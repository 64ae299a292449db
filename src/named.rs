use vstd::prelude::*;

verus! {

/// The first position of `name` in `names`, or -1 when it is absent.
pub open spec fn first_index<K>(names: Seq<K>, name: K) -> int
    decreases names.len(),
{
    if names.len() == 0 {
        -1
    } else {
        let r = first_index(names.drop_last(), name);
        if r >= 0 {
            r
        } else if names.last() == name {
            names.len() - 1
        } else {
            -1
        }
    }
}

/// `first_index` is -1 or the first position that holds `name`.
pub proof fn lemma_first_index<K>(names: Seq<K>, name: K)
    ensures
        -1 <= first_index(names, name) < names.len(),
        first_index(names, name) >= 0 ==> names[first_index(names, name)] == name,
        forall|j: int|
            0 <= j < names.len() && (first_index(names, name) < 0 || j < first_index(names, name))
                ==> names[j] != name,
    decreases names.len(),
{
    if names.len() > 0 {
        let p = names.drop_last();
        lemma_first_index(p, name);
        assert forall|j: int| 0 <= j < p.len() implies p[j] == names[j] by {}
    }
}

/// Extending a sequence by one name keeps the first position of every name
/// found before, and finds the new name last when it was absent.
pub proof fn lemma_first_index_push<K>(names: Seq<K>, extra: K, name: K)
    ensures
        first_index(names, name) >= 0 ==> first_index(names.push(extra), name) == first_index(
            names,
            name,
        ),
        first_index(names, name) < 0 && extra == name ==> first_index(names.push(extra), name)
            == names.len(),
        first_index(names, name) < 0 && extra != name ==> first_index(names.push(extra), name)
            == -1,
{
    assert(names.push(extra).drop_last() =~= names);
}

/// A list of named values in insertion order, where each name is held once:
/// inserting under a name already held replaces its value in place.
#[derive(Debug, Clone, PartialEq)]
pub struct Named<V> {
    entries: Vec<(String, V)>,
}

impl<V> Named<V> {
    /// The names, in order.
    pub closed spec fn names(&self) -> Seq<Seq<char>> {
        self.entries@.map_values(|e: (String, V)| e.0@)
    }

    /// The values, in the order of their names.
    pub closed spec fn values(&self) -> Seq<V> {
        self.entries@.map_values(|e: (String, V)| e.1)
    }

    /// The value held under `name`, if any.
    pub open spec fn lookup(&self, name: Seq<char>) -> Option<V> {
        let i = first_index(self.names(), name);
        if i >= 0 {
            Some(self.values()[i])
        } else {
            None
        }
    }

    /// Whether `self` is `before` with `value` inserted under `name`.
    pub open spec fn is_insert(&self, before: Self, name: Seq<char>, value: V) -> bool {
        let i = first_index(before.names(), name);
        if i >= 0 {
            &&& self.names() == before.names()
            &&& self.values() == before.values().update(i, value)
        } else {
            &&& self.names() == before.names().push(name)
            &&& self.values() == before.values().push(value)
        }
    }

    /// After an insertion, the inserted name holds the new value and every
    /// other name holds what it held before.
    pub proof fn lemma_lookup_insert(&self, before: Self, name: Seq<char>, value: V, other: Seq<char>)
        requires
            self.is_insert(before, name, value),
        ensures
            self.lookup(name) == Some(value),
            other != name ==> self.lookup(other) == before.lookup(other),
            self.names().len() == self.values().len(),
    {
        before.lemma_lengths();
        self.lemma_lengths();
        lemma_first_index(before.names(), name);
        lemma_first_index(before.names(), other);
        lemma_first_index_push(before.names(), name, name);
        lemma_first_index_push(before.names(), name, other);
    }

    /// Names and values come in pairs.
    pub proof fn lemma_lengths(&self)
        ensures
            self.names().len() == self.values().len(),
    {
    }

    /// An empty list holds nothing under any name.
    pub proof fn lemma_empty(m: Named<V>)
        requires
            m.names().len() == 0,
        ensures
            forall|name: Seq<char>| #[trigger] m.lookup(name) is None,
            m.values().len() == 0,
    {
        assert forall|name: Seq<char>| #[trigger] m.lookup(name) is None by {
            assert(first_index(m.names(), name) == -1);
        }
    }

    /// Creates an empty list.
    pub fn new() -> (r: Named<V>)
        ensures
            r.names() == Seq::<Seq<char>>::empty(),
            r.values() == Seq::<V>::empty(),
    {
        let r = Named { entries: Vec::new() };
        proof {
            assert(r.names() =~= Seq::<Seq<char>>::empty());
            assert(r.values() =~= Seq::<V>::empty());
        }
        r
    }

    /// The number of names.
    pub fn len(&self) -> (r: usize)
        ensures
            r as nat == self.names().len(),
            r as nat == self.values().len(),
    {
        self.entries.len()
    }

    /// Whether no name is held.
    pub fn is_empty(&self) -> (r: bool)
        ensures
            r == (self.names().len() == 0),
            r == (self.values().len() == 0),
    {
        self.entries.len() == 0
    }

    /// The name at position `i`.
    pub fn name_at(&self, i: usize) -> (r: &String)
        requires
            i < self.names().len(),
        ensures
            r@ == self.names()[i as int],
    {
        &self.entries[i].0
    }

    /// The value at position `i`.
    pub fn value_at(&self, i: usize) -> (r: &V)
        requires
            i < self.values().len(),
        ensures
            *r == self.values()[i as int],
    {
        &self.entries[i].1
    }

    /// The position of `name`, if it is held.
    pub fn position(&self, name: &str) -> (r: Option<usize>)
        ensures
            match r {
                Some(i) => i as int == first_index(self.names(), name@) && i < self.names().len(),
                None => first_index(self.names(), name@) < 0,
            },
    {
        let key = String::from_str(name);
        let mut i: usize = 0;
        while i < self.entries.len()
            invariant
                i <= self.entries@.len(),
                key@ == name@,
                first_index(self.names().subrange(0, i as int), name@) < 0,
            decreases self.entries@.len() - i,
        {
            proof {
                assert(self.names().subrange(0, i + 1).drop_last() =~= self.names().subrange(
                    0,
                    i as int,
                ));
            }
            if self.entries[i].0 == key {
                proof {
                    self.lemma_prefix_first(i as int, name@);
                }
                return Some(i);
            }
            i = i + 1;
        }
        proof {
            assert(self.names().subrange(0, i as int) =~= self.names());
        }
        None
    }

    proof fn lemma_prefix_first(&self, i: int, name: Seq<char>)
        requires
            0 <= i < self.names().len(),
            self.names()[i] == name,
            first_index(self.names().subrange(0, i), name) < 0,
        ensures
            first_index(self.names(), name) == i,
    {
        let names = self.names();
        lemma_first_index(names, name);
        lemma_first_index(names.subrange(0, i), name);
        let f = first_index(names, name);
        assert(f >= 0);
        if f < i {
            assert(names.subrange(0, i)[f] == name);
        }
    }

    /// The value held under `name`, if any.
    pub fn get(&self, name: &str) -> (r: Option<&V>)
        ensures
            match r {
                Some(v) => self.lookup(name@) == Some(*v),
                None => self.lookup(name@) is None,
            },
    {
        match self.position(name) {
            Some(i) => Some(&self.entries[i].1),
            None => None,
        }
    }

    /// Holds `value` under `name`: in place of the old value where the name
    /// is already held, at the end otherwise.
    pub fn insert(&mut self, name: String, value: V)
        ensures
            final(self).is_insert(*old(self), name@, value),
    {
        match self.position(name.as_str()) {
            Some(i) => {
                proof {
                    lemma_first_index(self.names(), name@);
                }
                self.entries.set(i, (name, value));
                proof {
                    assert(self.names() =~= old(self).names());
                    assert(self.values() =~= old(self).values().update(i as int, value));
                }
            },
            None => {
                let ghost nm = name@;
                self.entries.push((name, value));
                proof {
                    assert(self.names() =~= old(self).names().push(nm));
                    assert(self.values() =~= old(self).values().push(value));
                }
            },
        }
    }
}

} // verus!
