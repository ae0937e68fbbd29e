//! A map from names to values that keeps its entries sorted by name, as a
//! `BTreeMap<String, V>` does.
use crate::text::{
    compare_names, lemma_name_lt_irreflexive, lemma_name_lt_transitive, name_lt, names_sorted,
    views_of, NameOrder,
};
use vstd::prelude::*;

verus! {

/// `s` lists the names of `d`, each once, in increasing order.
pub open spec fn enumerates(s: Seq<Seq<char>>, d: Set<Seq<char>>) -> bool {
    &&& names_sorted(s)
    &&& forall|i: int| 0 <= i < s.len() ==> d.contains(#[trigger] s[i])
    &&& forall|k: Seq<char>| #[trigger] d.contains(k) ==> s.contains(k)
}

/// Where a name stands in a sequence of names.
pub open spec fn position_of(s: Seq<Seq<char>>, k: Seq<char>) -> int {
    choose|i: int| 0 <= i < s.len() && s[i] == k
}

/// In a strictly sorted sequence, a name stands at one place only.
pub proof fn lemma_sorted_unique(s: Seq<Seq<char>>, i: int, j: int)
    requires
        names_sorted(s),
        0 <= i < s.len(),
        0 <= j < s.len(),
        s[i] == s[j],
    ensures
        i == j,
{
    if i < j {
        lemma_name_lt_irreflexive(s[i]);
    } else if j < i {
        lemma_name_lt_irreflexive(s[i]);
    }
}

pub proof fn lemma_position_of(s: Seq<Seq<char>>, i: int)
    requires
        names_sorted(s),
        0 <= i < s.len(),
    ensures
        position_of(s, s[i]) == i,
{
    let p = position_of(s, s[i]);
    lemma_sorted_unique(s, i, p);
}

/// The map that pairs each name with the value at its position.
pub open spec fn entries_view<V>(names: Seq<Seq<char>>, vals: Seq<V>) -> Map<Seq<char>, V> {
    Map::new(|k: Seq<char>| names.contains(k), |k: Seq<char>| vals[position_of(names, k)])
}

/// Changing the value at one position of a sorted map changes the value of
/// that name only.
pub proof fn lemma_entries_update<V>(names: Seq<Seq<char>>, vals: Seq<V>, i: int, w: V)
    requires
        names_sorted(names),
        names.len() == vals.len(),
        0 <= i < names.len(),
    ensures
        entries_view(names, vals.update(i, w)) == entries_view(names, vals).insert(names[i], w),
{
    let a = entries_view(names, vals.update(i, w));
    let b = entries_view(names, vals).insert(names[i], w);
    assert forall|key: Seq<char>| #[trigger] a.contains_key(key) implies a[key] == b[key] by {
        let p = position_of(names, key);
        lemma_position_of(names, p);
        if key == names[i] {
            lemma_sorted_unique(names, p, i);
        }
    }
    assert(a.dom() =~= b.dom());
    assert(a =~= b);
}

/// A sorted map keyed by name.
pub struct NameMap<V> {
    keys: Vec<String>,
    vals: Vec<V>,
}

impl<V> NameMap<V> {
    /// The names, in increasing order.
    pub closed spec fn names(&self) -> Seq<Seq<char>> {
        views_of(self.keys@)
    }

    /// The values, in the order of their names.
    pub closed spec fn values(&self) -> Seq<V> {
        self.vals@
    }

    /// The names are sorted and each has one value.
    pub closed spec fn wf(&self) -> bool {
        &&& self.keys@.len() == self.vals@.len()
        &&& names_sorted(self.names())
    }

    pub closed spec fn view(&self) -> Map<Seq<char>, V> {
        entries_view(self.names(), self.vals@)
    }

    /// The names of a well-formed map enumerate its domain in order, and the
    /// value at each position is the value of that name.
    pub proof fn lemma_layout(&self)
        requires
            self.wf(),
        ensures
            enumerates(self.names(), self@.dom()),
            self.names().len() == self.values().len(),
            self@.dom().finite(),
            self@.dom().len() == self.names().len(),
            forall|i: int|
                0 <= i < self.names().len() ==> #[trigger] self@[self.names()[i]]
                    == self.values()[i],
    {
        let s = self.names();
        assert forall|i: int| 0 <= i < s.len() implies #[trigger] self@[s[i]] == self.values()[i] by {
            lemma_position_of(s, i);
        }
        assert(self@.dom() =~= s.to_set());
        assert forall|i: int, j: int| 0 <= i < s.len() && 0 <= j < s.len() && i != j implies s[i]
            != s[j] by {
            if s[i] == s[j] {
                lemma_sorted_unique(s, i, j);
            }
        }
        s.unique_seq_to_set();
    }

    pub fn new() -> (m: Self)
        ensures
            m.wf(),
            m@ == Map::<Seq<char>, V>::empty(),
            m.names() == Seq::<Seq<char>>::empty(),
    {
        let m = NameMap { keys: Vec::new(), vals: Vec::new() };
        assert(m.names() =~= Seq::<Seq<char>>::empty());
        assert(m@ =~= Map::<Seq<char>, V>::empty());
        m
    }

    pub fn len(&self) -> (n: usize)
        requires
            self.wf(),
        ensures
            n == self@.len(),
            n == self.names().len(),
    {
        proof {
            self.lemma_layout();
        }
        self.keys.len()
    }

    /// Looks a name up: `Ok` with its position, or `Err` with the position
    /// where it would be inserted.
    pub fn find(&self, name: &str) -> (r: Result<usize, usize>)
        requires
            self.wf(),
        ensures
            match r {
                Ok(i) => i < self.names().len() && self.names()[i as int] == name@
                    && self@.contains_key(name@),
                Err(p) => {
                    &&& p <= self.names().len()
                    &&& !self@.contains_key(name@)
                    &&& forall|j: int| 0 <= j < p ==> name_lt(#[trigger] self.names()[j], name@)
                    &&& forall|j: int|
                        p <= j < self.names().len() ==> name_lt(name@, #[trigger] self.names()[j])
                },
            },
    {
        let ghost s = self.names();
        let mut i: usize = 0;
        while i < self.keys.len()
            invariant
                self.wf(),
                s == self.names(),
                i <= self.keys@.len(),
                forall|j: int| 0 <= j < i ==> name_lt(#[trigger] s[j], name@),
            decreases self.keys@.len() - i,
        {
            let k: &String = &self.keys[i];
            assert(s[i as int] == k@);
            match compare_names(k.as_str(), name) {
                NameOrder::Less => {
                    i = i + 1;
                },
                NameOrder::Equal => {
                    assert(s.contains(name@));
                    return Ok(i);
                },
                NameOrder::Greater => {
                    proof {
                        assert forall|j: int| i <= j < s.len() implies name_lt(
                            name@,
                            #[trigger] s[j],
                        ) by {
                            if j > i {
                                lemma_name_lt_transitive(name@, s[i as int], s[j]);
                            }
                        }
                        assert forall|j: int| 0 <= j < s.len() implies s[j] != name@ by {
                            if j < i {
                                lemma_name_lt_irreflexive(name@);
                            } else {
                                lemma_name_lt_irreflexive(name@);
                            }
                        }
                    }
                    return Err(i);
                },
            }
        }
        proof {
            assert forall|j: int| 0 <= j < s.len() implies s[j] != name@ by {
                lemma_name_lt_irreflexive(name@);
            }
        }
        Err(i)
    }

    pub fn contains_key(&self, name: &str) -> (b: bool)
        requires
            self.wf(),
        ensures
            b == self@.contains_key(name@),
    {
        match self.find(name) {
            Ok(_) => true,
            Err(_) => false,
        }
    }

    /// The value stored for a name.
    pub fn get(&self, name: &str) -> (r: Option<&V>)
        requires
            self.wf(),
        ensures
            match r {
                Some(v) => self@.contains_key(name@) && *v == self@[name@],
                None => !self@.contains_key(name@),
            },
    {
        match self.find(name) {
            Ok(i) => {
                proof {
                    self.lemma_layout();
                }
                Some(&self.vals[i])
            },
            Err(_) => None,
        }
    }

    /// The name at a position.
    pub fn key_at(&self, i: usize) -> (k: &String)
        requires
            self.wf(),
            i < self.names().len(),
        ensures
            k@ == self.names()[i as int],
    {
        &self.keys[i]
    }

    /// The value at a position.
    pub fn value_at(&self, i: usize) -> (v: &V)
        requires
            self.wf(),
            i < self.names().len(),
        ensures
            *v == self.values()[i as int],
            *v == self@[self.names()[i as int]],
    {
        proof {
            self.lemma_layout();
        }
        &self.vals[i]
    }

    /// The value stored for a name, to change in place.
    pub fn get_mut(&mut self, name: &str) -> (r: Option<&mut V>)
        requires
            old(self).wf(),
        ensures
            final(self).wf(),
            final(self).names() == old(self).names(),
            match r {
                Some(v) => old(self)@.contains_key(name@) && *v == old(self)@[name@]
                    && final(self)@ == old(self)@.insert(name@, *final(v)),
                None => !old(self)@.contains_key(name@) && final(self)@ == old(self)@,
            },
    {
        proof {
            self.lemma_layout();
        }
        match self.find(name) {
            Ok(i) => {
                let ghost s = self.names();
                let ghost vals0 = self.vals@;
                proof {
                    assert forall|w: V| #[trigger] entries_view(s, vals0.update(i as int, w))
                        == entries_view(s, vals0).insert(name@, w) by {
                        lemma_entries_update(s, vals0, i as int, w);
                    }
                }
                let v = &mut self.vals[i];
                Some(v)
            },
            Err(_) => None,
        }
    }

    /// Replaces the value at a position, giving back the previous one.
    pub fn replace_at(&mut self, i: usize, v: V) -> (prev: V)
        requires
            old(self).wf(),
            i < old(self).names().len(),
        ensures
            final(self).wf(),
            final(self).names() == old(self).names(),
            final(self)@ == old(self)@.insert(old(self).names()[i as int], v),
            prev == old(self)@[old(self).names()[i as int]],
    {
        proof {
            self.lemma_layout();
        }
        let ghost k = self.names()[i as int];
        let ghost before = self@;
        let mut prev = v;
        std::mem::swap(&mut self.vals[i], &mut prev);
        proof {
            assert(self.names() =~= old(self).names());
            let s = self.names();
            assert forall|key: Seq<char>| #[trigger] self@.contains_key(key) implies self@[key]
                == before.insert(k, v)[key] by {
                let p = position_of(s, key);
                lemma_position_of(s, p);
                if key == k {
                    lemma_sorted_unique(s, p, i as int);
                } else {
                    lemma_position_of(s, i as int);
                }
            }
            assert(self@ =~= before.insert(k, v));
        }
        prev
    }

    /// Inserts a name that is absent, at the position that `find` gave.
    pub fn insert_at(&mut self, p: usize, name: String, v: V)
        requires
            old(self).wf(),
            !old(self)@.contains_key(name@),
            p <= old(self).names().len(),
            forall|j: int| 0 <= j < p ==> name_lt(#[trigger] old(self).names()[j], name@),
            forall|j: int|
                p <= j < old(self).names().len() ==> name_lt(name@, #[trigger] old(self).names()[j]),
        ensures
            final(self).wf(),
            final(self)@ == old(self)@.insert(name@, v),
            final(self).names() == old(self).names().insert(p as int, name@),
    {
        let ghost s0 = self.names();
        let ghost before = self@;
        let ghost key = name@;
        self.keys.insert(p, name);
        self.vals.insert(p, v);
        proof {
            let s = self.names();
            assert(s =~= s0.insert(p as int, key));
            assert forall|i: int, j: int| 0 <= i < j < s.len() implies name_lt(
                #[trigger] s[i],
                #[trigger] s[j],
            ) by {
                if i < p && j > p {
                    lemma_name_lt_transitive(s[i], key, s[j]);
                }
            }
            assert forall|k: Seq<char>| #[trigger] self@.contains_key(k) == before.insert(
                key,
                v,
            ).contains_key(k) by {
                if s.contains(k) && k != key {
                    let q = choose|q: int| 0 <= q < s.len() && s[q] == k;
                    if q < p {
                        assert(s0[q] == k);
                    } else {
                        assert(s0[q - 1] == k);
                    }
                }
                if before.contains_key(k) {
                    let q = choose|q: int| 0 <= q < s0.len() && s0[q] == k;
                    if q < p {
                        assert(s[q] == k);
                    } else {
                        assert(s[q + 1] == k);
                    }
                }
                if k == key {
                    assert(s[p as int] == key);
                }
            }
            assert forall|k: Seq<char>| #[trigger] self@.contains_key(k) implies self@[k]
                == before.insert(key, v)[k] by {
                let q = position_of(s, k);
                lemma_position_of(s, q);
                if k == key {
                    assert(s[p as int] == key);
                    lemma_sorted_unique(s, q, p as int);
                } else if q < p {
                    lemma_position_of(s0, q);
                } else {
                    assert(s0[q - 1] == k);
                    lemma_position_of(s0, q - 1);
                }
            }
            assert(self@ =~= before.insert(key, v));
        }
    }

    /// Inserts or replaces the value of a name, giving back the previous
    /// value.
    pub fn insert(&mut self, name: String, v: V) -> (prev: Option<V>)
        requires
            old(self).wf(),
        ensures
            final(self).wf(),
            final(self)@ == old(self)@.insert(name@, v),
            match prev {
                Some(p) => old(self)@.contains_key(name@) && p == old(self)@[name@],
                None => !old(self)@.contains_key(name@),
            },
    {
        match self.find(name.as_str()) {
            Ok(i) => {
                let p = self.replace_at(i, v);
                Some(p)
            },
            Err(p) => {
                self.insert_at(p, name, v);
                None
            },
        }
    }

    /// The names, cloned, in increasing order.
    pub fn key_list(&self) -> (r: Vec<String>)
        requires
            self.wf(),
        ensures
            views_of(r@) == self.names(),
            enumerates(self.names(), self@.dom()),
    {
        proof {
            self.lemma_layout();
        }
        let mut r: Vec<String> = Vec::new();
        let mut i: usize = 0;
        while i < self.keys.len()
            invariant
                i <= self.keys@.len(),
                views_of(r@) == self.names().take(i as int),
            decreases self.keys@.len() - i,
        {
            let c = self.keys[i].clone();
            let ghost r0 = r@;
            r.push(c);
            assert(self.names()[i as int] == self.keys@[i as int]@);
            assert(r@ == r0.push(c));
            assert(views_of(r0).len() == i);
            assert(views_of(r@).len() == i + 1);
            assert(c@ == self.keys@[i as int]@);
            assert(views_of(r@)[i as int] == c@);
            assert forall|j: int| 0 <= j < i + 1 implies #[trigger] views_of(r@)[j]
                == self.names().take(i + 1)[j] by {
                if j < i {
                    assert(views_of(r0)[j] == self.names().take(i as int)[j]);
                }
            }
            assert(views_of(r@) =~= self.names().take(i + 1));
            i = i + 1;
        }
        assert(self.names().take(i as int) =~= self.names());
        r
    }

    /// A copy of a map whose values are copied bit for bit.
    pub fn copy(&self) -> (r: Self) where V: Copy
        requires
            self.wf(),
        ensures
            r.wf(),
            r@ == self@,
            r.names() == self.names(),
    {
        let keys = self.key_list();
        let mut vals: Vec<V> = Vec::new();
        let mut i: usize = 0;
        while i < self.vals.len()
            invariant
                self.wf(),
                i <= self.vals@.len(),
                vals@ == self.vals@.take(i as int),
            decreases self.vals@.len() - i,
        {
            vals.push(self.vals[i]);
            assert(vals@ =~= self.vals@.take(i + 1));
            i = i + 1;
        }
        assert(vals@ =~= self.vals@);
        let r = NameMap { keys, vals };
        assert(r.names() == self.names());
        assert(r@ =~= self@);
        r
    }
}

impl NameMap<String> {
    /// A copy of a map whose values are strings.
    pub fn clone_strings(&self) -> (r: Self)
        requires
            self.wf(),
        ensures
            r.wf(),
            r@ == self@,
            r.names() == self.names(),
    {
        let keys = self.key_list();
        let mut vals: Vec<String> = Vec::new();
        let mut i: usize = 0;
        while i < self.vals.len()
            invariant
                self.wf(),
                i <= self.vals@.len(),
                vals@ == self.vals@.take(i as int),
            decreases self.vals@.len() - i,
        {
            vals.push(self.vals[i].clone());
            assert(vals@ =~= self.vals@.take(i + 1));
            i = i + 1;
        }
        assert(vals@ =~= self.vals@);
        let r = NameMap { keys, vals };
        assert(r.names() == self.names());
        assert(r@ =~= self@);
        r
    }
}

} // verus!
