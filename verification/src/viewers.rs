//! The viewers of a boss bar: a contiguous set of player handles, each
//! identified by the address of the player it points to.
use rustc_hash::FxHashSet;
use vstd::prelude::*;

verus! {

broadcast use vstd::seq_lib::group_seq_properties;

/// No addresses.
pub open spec fn no_addresses() -> Set<usize> {
    Set::empty()
}

/// What an address set holds.
pub uninterp spec fn address_set(s: FxHashSet<usize>) -> Set<usize>;

/// `FxHashSet::default`: an empty set.
#[verifier::external_body]
fn addresses_new() -> (r: FxHashSet<usize>)
    ensures
        address_set(r) == no_addresses(),
{
    FxHashSet::default()
}

/// `HashSet::insert`: adds the address; true when it was absent.
#[verifier::external_body]
fn addresses_insert(s: &mut FxHashSet<usize>, address: usize) -> (r: bool)
    ensures
        address_set(*final(s)) == address_set(*old(s)).insert(address),
        r == !address_set(*old(s)).contains(address),
{
    s.insert(address)
}

/// `HashSet::remove`: removes the address; true when it was present.
#[verifier::external_body]
fn addresses_remove(s: &mut FxHashSet<usize>, address: usize) -> (r: bool)
    ensures
        address_set(*final(s)) == address_set(*old(s)).remove(address),
        r == address_set(*old(s)).contains(address),
{
    s.remove(&address)
}

/// `HashSet::clear`: removes every address.
#[verifier::external_body]
fn addresses_clear(s: &mut FxHashSet<usize>)
    ensures
        address_set(*final(s)) == no_addresses(),
{
    s.clear()
}

/// The addresses of a sequence of viewer entries.
pub open spec fn entry_addresses<P>(s: Seq<(usize, P)>) -> Seq<usize> {
    s.map_values(|e: (usize, P)| e.0)
}

/// The handles of a sequence of viewer entries.
pub open spec fn entry_handles<P>(s: Seq<(usize, P)>) -> Seq<P> {
    s.map_values(|e: (usize, P)| e.1)
}

/// The addresses of the viewers of a sequence of entries.
pub open spec fn viewer_addresses<P>(s: Seq<(usize, P)>) -> Set<usize> {
    entry_addresses(s).to_set()
}

/// Where an address stands among the entries.
pub open spec fn address_position<P>(s: Seq<(usize, P)>, address: usize) -> int {
    choose|i: int| 0 <= i < s.len() && s[i].0 == address
}

/// The entries with the one at `i` replaced by the last, which is dropped:
/// what `Vec::swap_remove` leaves.
pub open spec fn swap_removed<T>(s: Seq<T>, i: int) -> Seq<T> {
    s.update(i, s.last()).drop_last()
}

/// The entries whose flag is set, in order.
pub open spec fn kept<T>(s: Seq<T>, alive: Seq<bool>) -> Seq<T>
    decreases s.len(),
{
    if s.len() == 0 {
        Seq::empty()
    } else {
        let rest = kept(s.drop_last(), alive.take(s.len() - 1));
        if alive[s.len() - 1] {
            rest.push(s.last())
        } else {
            rest
        }
    }
}

/// A set of viewers: handles of type `P`, each with the address of its
/// player. Element order is not meaningful to callers.
pub struct Viewers<P> {
    weaks: Vec<(usize, P)>,
    addresses: FxHashSet<usize>,
}

impl<P> View for Viewers<P> {
    type V = Seq<(usize, P)>;

    closed spec fn view(&self) -> Seq<(usize, P)> {
        self.weaks@
    }
}

impl<P> Viewers<P> {
    /// Each address appears once, and the address set holds exactly the
    /// entries' addresses.
    pub closed spec fn wf(&self) -> bool {
        &&& entry_addresses(self.weaks@).no_duplicates()
        &&& address_set(self.addresses) == entry_addresses(self.weaks@).to_set()
    }

    /// The addresses of the viewers.
    pub open spec fn addresses(&self) -> Set<usize> {
        viewer_addresses(self@)
    }

    /// Creates a new set of viewers.
    pub fn new() -> (r: Self)
        ensures
            r.wf(),
            r@ == Seq::<(usize, P)>::empty(),
    {
        let r = Viewers { weaks: Vec::new(), addresses: addresses_new() };
        assert(entry_addresses(r.weaks@).to_set() =~= no_addresses());
        r
    }

    /// The number of viewers.
    pub fn len(&self) -> (n: usize)
        ensures
            n == self@.len(),
    {
        self.weaks.len()
    }

    /// The viewer at a position.
    pub fn entry(&self, i: usize) -> (r: &(usize, P))
        requires
            i < self@.len(),
        ensures
            *r == self@[i as int],
    {
        &self.weaks[i]
    }

    /// Adds a viewer unless its address is already there; says whether it
    /// was added.
    pub fn add(&mut self, address: usize, handle: P) -> (added: bool)
        requires
            old(self).wf(),
        ensures
            final(self).wf(),
            added == !old(self).addresses().contains(address),
            final(self)@ == if added {
                old(self)@.push((address, handle))
            } else {
                old(self)@
            },
    {
        let ghost before = self.weaks@;
        if addresses_insert(&mut self.addresses, address) {
            self.weaks.push((address, handle));
            proof {
                assert(entry_addresses(self.weaks@) =~= entry_addresses(before).push(address));
                let e0 = entry_addresses(before);
                let e1 = entry_addresses(self.weaks@);
                assert(!e0.contains(address)) by {
                    assert(!e0.to_set().contains(address));
                }
                assert(e1.no_duplicates()) by {
                    assert forall|i: int, j: int| 0 <= i < e1.len() && 0 <= j < e1.len() && i != j implies e1[i] != e1[j] by {
                        if i < e0.len() && j < e0.len() {
                            assert(e1[i] == e0[i] && e1[j] == e0[j]);
                        } else if i < e0.len() {
                            assert(e0.contains(e1[i]));
                        } else {
                            assert(e0.contains(e1[j]));
                        }
                    }
                }
                assert forall|x: usize| #[trigger] e1.contains(x) <==> e0.contains(x) || x == address by {
                    if e1.contains(x) {
                        let k = choose|k: int| 0 <= k < e1.len() && e1[k] == x;
                        if k < e0.len() {
                            assert(e0[k] == x);
                        }
                    }
                    if e0.contains(x) {
                        let k = choose|k: int| 0 <= k < e0.len() && e0[k] == x;
                        assert(e1[k] == x);
                    }
                    if x == address {
                        assert(e1[e0.len() as int] == x);
                    }
                }
                assert(e1.to_set() =~= e0.to_set().insert(address));
            }
            true
        } else {
            assert(address_set(self.addresses) =~= entry_addresses(before).to_set());
            false
        }
    }

    /// Removes the viewer with an address; says whether there was one. The
    /// last viewer takes its place.
    pub fn remove(&mut self, address: usize) -> (removed: bool)
        requires
            old(self).wf(),
        ensures
            final(self).wf(),
            removed == old(self).addresses().contains(address),
            final(self)@ == if removed {
                swap_removed(old(self)@, address_position(old(self)@, address))
            } else {
                old(self)@
            },
    {
        let ghost before = self.weaks@;
        let ghost addrs = entry_addresses(before);
        if addresses_remove(&mut self.addresses, address) {
            let mut i: usize = 0;
            while i < self.weaks.len() && self.weaks[i].0 != address
                invariant
                    self.weaks@ == before,
                    i <= before.len(),
                    forall|j: int| 0 <= j < i ==> before[j].0 != address,
                decreases before.len() - i,
            {
                i = i + 1;
            }
            if i < self.weaks.len() {
                proof {
                    let p = address_position(before, address);
                    assert(before[i as int].0 == address);
                    assert(addrs[p] == addrs[i as int]);
                }
                self.weaks.swap_remove(i);
                proof {
                    lemma_swap_removed_addresses(before, i as int);
                }
                true
            } else {
                proof {
                    assert(addrs.to_set().contains(address));
                    let k = choose|k: int| 0 <= k < addrs.len() && addrs[k] == address;
                    assert(before[k].0 == address);
                }
                false
            }
        } else {
            assert(address_set(self.addresses) =~= entry_addresses(before).to_set());
            false
        }
    }

    /// Removes the viewer at a position, giving it back; the last viewer
    /// takes its place.
    pub fn remove_at(&mut self, i: usize) -> (r: (usize, P))
        requires
            old(self).wf(),
            i < old(self)@.len(),
        ensures
            final(self).wf(),
            r == old(self)@[i as int],
            final(self)@ == swap_removed(old(self)@, i as int),
    {
        let ghost before = self.weaks@;
        let address = self.weaks[i].0;
        addresses_remove(&mut self.addresses, address);
        let r = self.weaks.swap_remove(i);
        proof {
            lemma_swap_removed_addresses(before, i as int);
        }
        r
    }

    /// Clears all the viewers from the set, leaving it empty.
    pub fn clear(&mut self)
        requires
            old(self).wf(),
        ensures
            final(self).wf(),
            final(self)@ == Seq::<(usize, P)>::empty(),
    {
        self.weaks.clear();
        addresses_clear(&mut self.addresses);
        assert(entry_addresses(self.weaks@).to_set() =~= no_addresses());
    }

    /// Takes every viewer out, giving back their handles in order.
    pub fn take_all(&mut self) -> (r: Vec<P>)
        requires
            old(self).wf(),
        ensures
            final(self).wf(),
            final(self)@ == Seq::<(usize, P)>::empty(),
            r@ == entry_handles(old(self)@),
    {
        let ghost before = self.weaks@;
        let mut rest: Vec<(usize, P)> = Vec::new();
        std::mem::swap(&mut rest, &mut self.weaks);
        addresses_clear(&mut self.addresses);
        let mut handles: Vec<P> = Vec::new();
        let n = rest.len();
        let mut i: usize = 0;
        while i < n
            invariant
                n == before.len(),
                i <= n,
                rest@ == before.subrange(i as int, n as int),
                handles@ == entry_handles(before).take(i as int),
            decreases n - i,
        {
            let e = rest.remove(0);
            assert(e == before[i as int]);
            handles.push(e.1);
            assert(handles@ =~= entry_handles(before).take(i + 1));
            assert(rest@ =~= before.subrange(i + 1, n as int));
            i = i + 1;
        }
        assert(handles@ =~= entry_handles(before));
        assert(entry_addresses(self.weaks@).to_set() =~= no_addresses());
        handles
    }

    /// Removes the viewers whose flag in `alive` is false, keeping the
    /// order of the others.
    pub fn clean(&mut self, alive: &Vec<bool>)
        requires
            old(self).wf(),
            alive@.len() == old(self)@.len(),
        ensures
            final(self).wf(),
            final(self)@ == kept(old(self)@, alive@),
    {
        let ghost before = self.weaks@;
        let mut rest: Vec<(usize, P)> = Vec::new();
        std::mem::swap(&mut rest, &mut self.weaks);
        let n = rest.len();
        let mut i: usize = 0;
        while i < n
            invariant
                n == before.len(),
                alive@.len() == n,
                i <= n,
                rest@ == before.subrange(i as int, n as int),
                self.weaks@ == kept(before.take(i as int), alive@.take(i as int)),
                entry_addresses(before).no_duplicates(),
                address_set(self.addresses) == entry_addresses(before).to_set().difference(
                    dead_addresses(before.take(i as int), alive@.take(i as int)),
                ),
            decreases n - i,
        {
            let e = rest.remove(0);
            assert(e == before[i as int]);
            assert(before.take(i + 1).drop_last() =~= before.take(i as int));
            assert(alive@.take(i + 1).take(i as int) =~= alive@.take(i as int));
            if alive[i] {
                self.weaks.push(e);
            } else {
                addresses_remove(&mut self.addresses, e.0);
            }
            assert(rest@ =~= before.subrange(i + 1, n as int));
            i = i + 1;
        }
        assert(before.take(n as int) =~= before);
        assert(alive@.take(n as int) =~= alive@);
        proof {
            lemma_kept_addresses(before, alive@);
        }
    }
}

/// Adding a viewer that was absent and then removing it again leaves the
/// same set of viewers.
pub proof fn lemma_add_then_remove<P>(s: Seq<(usize, P)>, address: usize, handle: P)
    requires
        entry_addresses(s).no_duplicates(),
        !viewer_addresses(s).contains(address),
    ensures
        ({
            let added = s.push((address, handle));
            let removed = swap_removed(added, address_position(added, address));
            &&& viewer_addresses(added).contains(address)
            &&& removed == s
        }),
{
    let added = s.push((address, handle));
    let ea = entry_addresses(added);
    assert(ea =~= entry_addresses(s).push(address));
    assert(ea[s.len() as int] == address);
    assert(viewer_addresses(added).contains(address));
    let p = address_position(added, address);
    assert(p == s.len()) by {
        if p != s.len() {
            assert(entry_addresses(s)[p] == address);
        }
    }
    let removed = swap_removed(added, p);
    assert(removed =~= s);
}

/// Removing an entry by moving the last one into its place keeps the
/// addresses distinct and drops the removed entry's address.
pub proof fn lemma_swap_removed_addresses<P>(s: Seq<(usize, P)>, i: int)
    requires
        entry_addresses(s).no_duplicates(),
        0 <= i < s.len(),
    ensures
        entry_addresses(swap_removed(s, i)).no_duplicates(),
        entry_addresses(swap_removed(s, i)).to_set() == entry_addresses(s).to_set().remove(s[i].0),
{
    let addrs = entry_addresses(s);
    let after = entry_addresses(swap_removed(s, i));
    assert(after =~= swap_removed(addrs, i));
    assert forall|a: int, b: int| 0 <= a < b < after.len() implies after[a] != after[b] by {
        let aa = if a == i { addrs.len() - 1 } else { a };
        let bb = if b == i { addrs.len() - 1 } else { b };
        assert(after[a] == addrs[aa]);
        assert(after[b] == addrs[bb]);
    }
    assert(after.to_set() =~= addrs.to_set().remove(s[i].0)) by {
        assert forall|x: usize| after.to_set().contains(x) implies addrs.to_set().remove(
            s[i].0,
        ).contains(x) by {
            let k = choose|k: int| 0 <= k < after.len() && after[k] == x;
            let kk = if k == i { addrs.len() - 1 } else { k };
            assert(after[k] == addrs[kk]);
            assert(addrs[kk] != addrs[i]);
        }
        assert forall|x: usize| addrs.to_set().remove(s[i].0).contains(x) implies after.to_set().contains(
            x,
        ) by {
            let k = choose|k: int| 0 <= k < addrs.len() && addrs[k] == x;
            if k == addrs.len() - 1 {
                assert(after[i] == x);
            } else {
                assert(after[k] == x);
            }
        }
    }
}

/// The addresses of the entries whose flag is clear.
pub open spec fn dead_addresses<P>(s: Seq<(usize, P)>, alive: Seq<bool>) -> Set<usize>
    decreases s.len(),
{
    if s.len() == 0 {
        Set::empty()
    } else {
        let rest = dead_addresses(s.drop_last(), alive.take(s.len() - 1));
        if alive[s.len() - 1] {
            rest
        } else {
            rest.insert(s.last().0)
        }
    }
}

/// Keeping the entries with a set flag keeps their addresses distinct, and
/// their addresses are those of the entries less the clear ones.
pub proof fn lemma_kept_addresses<P>(s: Seq<(usize, P)>, alive: Seq<bool>)
    requires
        entry_addresses(s).no_duplicates(),
        alive.len() == s.len(),
    ensures
        entry_addresses(kept(s, alive)).no_duplicates(),
        entry_addresses(kept(s, alive)).to_set() == entry_addresses(s).to_set().difference(
            dead_addresses(s, alive),
        ),
    decreases s.len(),
{
    if s.len() == 0 {
        assert(entry_addresses(kept(s, alive)).to_set() =~= entry_addresses(s).to_set().difference(
            dead_addresses(s, alive),
        ));
    } else {
        let n = s.len() - 1;
        let s0 = s.drop_last();
        let a0 = alive.take(n);
        let last = s.last().0;
        let e = entry_addresses(s);
        let e0 = entry_addresses(s0);
        assert(e0 =~= e.drop_last());
        assert(e0.no_duplicates());
        lemma_kept_addresses(s0, a0);
        lemma_dead_within(s0, a0);
        let k0 = kept(s0, a0);
        let ek0 = entry_addresses(k0);
        assert(!e0.contains(last)) by {
            if e0.contains(last) {
                let k = choose|k: int| 0 <= k < e0.len() && e0[k] == last;
                assert(e[k] == e[n]);
            }
        }
        assert(!ek0.contains(last)) by {
            if ek0.contains(last) {
                assert(ek0.to_set().contains(last));
                assert(e0.to_set().contains(last));
            }
        }
        assert(!dead_addresses(s0, a0).contains(last));
        assert forall|x: usize| #[trigger] e.contains(x) <==> e0.contains(x) || x == last by {
            if e.contains(x) {
                let k = choose|k: int| 0 <= k < e.len() && e[k] == x;
                if k < n {
                    assert(e0[k] == x);
                }
            }
            if e0.contains(x) {
                let k = choose|k: int| 0 <= k < e0.len() && e0[k] == x;
                assert(e[k] == x);
            }
            if x == last {
                assert(e[n] == x);
            }
        }
        if alive[n] {
            assert(kept(s, alive) == k0.push(s.last()));
            let ek = entry_addresses(kept(s, alive));
            assert(ek =~= ek0.push(last));
            assert(ek.no_duplicates()) by {
                assert forall|i: int, j: int| 0 <= i < ek.len() && 0 <= j < ek.len() && i != j implies ek[i] != ek[j] by {
                    if i < ek0.len() && j < ek0.len() {
                        assert(ek[i] == ek0[i] && ek[j] == ek0[j]);
                    } else if i < ek0.len() {
                        assert(ek0.contains(ek[i]));
                    } else {
                        assert(ek0.contains(ek[j]));
                    }
                }
            }
            assert(dead_addresses(s, alive) == dead_addresses(s0, a0));
            assert forall|x: usize| #[trigger] ek.contains(x) <==> ek0.contains(x) || x == last by {
                if ek.contains(x) {
                    let k = choose|k: int| 0 <= k < ek.len() && ek[k] == x;
                    if k < ek0.len() {
                        assert(ek0[k] == x);
                    }
                }
                if ek0.contains(x) {
                    let k = choose|k: int| 0 <= k < ek0.len() && ek0[k] == x;
                    assert(ek[k] == x);
                }
                if x == last {
                    assert(ek[ek0.len() as int] == x);
                }
            }
            assert forall|x: usize| ek.to_set().contains(x) == e.to_set().difference(dead_addresses(s, alive)).contains(x) by {
                assert(ek0.to_set().contains(x) == e0.to_set().difference(dead_addresses(s0, a0)).contains(x));
            }
            assert(ek.to_set() =~= e.to_set().difference(dead_addresses(s, alive)));
        } else {
            assert(kept(s, alive) == k0);
            assert(dead_addresses(s, alive) == dead_addresses(s0, a0).insert(last));
            assert(ek0.to_set() =~= e.to_set().difference(dead_addresses(s, alive)));
        }
    }
}

/// The clear entries' addresses are among the entries' addresses.
pub proof fn lemma_dead_within<P>(s: Seq<(usize, P)>, alive: Seq<bool>)
    requires
        alive.len() == s.len(),
    ensures
        dead_addresses(s, alive).subset_of(entry_addresses(s).to_set()),
    decreases s.len(),
{
    if s.len() > 0 {
        let n = s.len() - 1;
        let s0 = s.drop_last();
        let a0 = alive.take(n);
        lemma_dead_within(s0, a0);
        let e = entry_addresses(s);
        let e0 = entry_addresses(s0);
        assert(e0 =~= e.drop_last());
        assert forall|x: usize| dead_addresses(s, alive).contains(x) implies e.to_set().contains(x) by {
            if dead_addresses(s0, a0).contains(x) {
                assert(e0.to_set().contains(x));
                let k = choose|k: int| 0 <= k < e0.len() && e0[k] == x;
                assert(e[k] == x);
            } else {
                assert(e[n] == x);
            }
        }
    }
}

} // verus!
