//! Collections keyed by text.

use vstd::prelude::*;

use crate::text::same;

verus! {

/// A map from texts to values. A later insertion under the same text replaces the
/// earlier one.
#[derive(Debug)]
pub struct NameMap<V> {
    entries: Vec<(String, V)>,
}

/// The map that a list of insertions leaves.
pub open spec fn inserted<V>(entries: Seq<(String, V)>) -> Map<Seq<char>, V>
    decreases entries.len(),
{
    if entries.len() == 0 {
        Map::empty()
    } else {
        inserted(entries.drop_last()).insert(entries.last().0@, entries.last().1)
    }
}

impl<V> View for NameMap<V> {
    type V = Map<Seq<char>, V>;

    closed spec fn view(&self) -> Map<Seq<char>, V> {
        inserted(self.entries@)
    }
}

impl<V> NameMap<V> {
    /// The empty map.
    pub fn new() -> (r: Self)
        ensures
            r@ == Map::<Seq<char>, V>::empty(),
    {
        NameMap { entries: Vec::new() }
    }

    /// Map `name` to `value`.
    pub fn insert(&mut self, name: String, value: V)
        ensures
            final(self)@ == old(self)@.insert(name@, value),
    {
        let ghost before = self.entries@;
        self.entries.push((name, value));
        assert(self.entries@.drop_last() =~= before);
    }

    /// The value under `name`.
    pub fn get(&self, name: &str) -> (r: Option<&V>)
        ensures
            r == (if self@.contains_key(name@) {
                Some(&self@[name@])
            } else {
                None
            }),
    {
        let mut i: usize = self.entries.len();
        assert(self.entries@.take(i as int) =~= self.entries@);
        while i > 0
            invariant
                i <= self.entries@.len(),
                self@.contains_key(name@) == inserted(self.entries@.take(i as int)).contains_key(
                    name@,
                ),
                self@.contains_key(name@) ==> self@[name@] == inserted(
                    self.entries@.take(i as int),
                )[name@],
            decreases i,
        {
            let ghost upto = self.entries@.take(i as int);
            assert(upto.drop_last() =~= self.entries@.take(i - 1));
            i = i - 1;
            if same(&self.entries[i].0, name) {
                return Some(&self.entries[i].1);
            }
        }
        None
    }

    /// Forget what `name` is mapped to.
    pub fn remove(&mut self, name: &str)
        ensures
            final(self)@ == old(self)@.remove(name@),
    {
        let mut i: usize = 0;
        while i < self.entries.len()
            invariant
                i <= self.entries@.len(),
                forall|j: int| 0 <= j < i ==> #[trigger] self.entries@[j].0@ != name@,
                inserted(self.entries@).remove(name@) == old(self)@.remove(name@),
            decreases self.entries@.len() - i,
        {
            if same(&self.entries[i].0, name) {
                proof {
                    dropping_a_key(self.entries@, i as int, name@);
                }
                self.entries.remove(i);
            } else {
                i = i + 1;
            }
        }
        proof {
            absent_key(self.entries@, name@);
        }
        assert(inserted(self.entries@).remove(name@) =~= inserted(self.entries@));
    }
}

/// Dropping an insertion under `k` changes nothing under other names.
proof fn dropping_a_key<V>(entries: Seq<(String, V)>, i: int, k: Seq<char>)
    requires
        0 <= i < entries.len(),
        entries[i].0@ == k,
    ensures
        inserted(entries.remove(i)).remove(k) == inserted(entries).remove(k),
    decreases entries.len(),
{
    let rest = entries.remove(i);
    if i == entries.len() - 1 {
        assert(rest =~= entries.drop_last());
    } else {
        dropping_a_key(entries.drop_last(), i, k);
        assert(rest.drop_last() =~= entries.drop_last().remove(i));
        let a = inserted(rest.drop_last());
        let b = inserted(entries.drop_last());
        let (l, v) = (entries.last().0@, entries.last().1);
        if l != k {
            assert(a.insert(l, v).remove(k) =~= a.remove(k).insert(l, v));
            assert(b.insert(l, v).remove(k) =~= b.remove(k).insert(l, v));
        } else {
            assert(a.insert(l, v).remove(k) =~= a.remove(k));
            assert(b.insert(l, v).remove(k) =~= b.remove(k));
        }
    }
    assert(inserted(rest).remove(k) =~= inserted(entries).remove(k));
}

proof fn absent_key<V>(entries: Seq<(String, V)>, k: Seq<char>)
    requires
        forall|j: int| 0 <= j < entries.len() ==> #[trigger] entries[j].0@ != k,
    ensures
        !inserted(entries).contains_key(k),
    decreases entries.len(),
{
    if entries.len() > 0 {
        assert(entries.last() == entries[entries.len() - 1]);
        absent_key(entries.drop_last(), k);
    }
}

/// A set of texts.
#[derive(Debug)]
pub struct NameSet {
    names: Vec<String>,
}

impl View for NameSet {
    type V = Set<Seq<char>>;

    closed spec fn view(&self) -> Set<Seq<char>> {
        Set::new(|t: Seq<char>| exists|i: int| 0 <= i < self.names@.len() && self.names@[i]@ == t)
    }
}

impl NameSet {
    /// The empty set.
    pub fn new() -> (r: Self)
        ensures
            r@ == Set::<Seq<char>>::empty(),
    {
        let r = NameSet { names: Vec::new() };
        assert(r@ =~= Set::<Seq<char>>::empty());
        r
    }

    /// Whether `name` is in the set.
    pub fn contains(&self, name: &str) -> (r: bool)
        ensures
            r == self@.contains(name@),
    {
        let mut i: usize = 0;
        while i < self.names.len()
            invariant
                i <= self.names@.len(),
                forall|j: int| 0 <= j < i ==> #[trigger] self.names@[j]@ != name@,
            decreases self.names@.len() - i,
        {
            if same(&self.names[i], name) {
                return true;
            }
            i = i + 1;
        }
        false
    }

    /// Add `name`; whether it was new.
    pub fn insert(&mut self, name: String) -> (r: bool)
        ensures
            r == !old(self)@.contains(name@),
            final(self)@ == old(self)@.insert(name@),
    {
        let known = self.contains(&name);
        let ghost text = name@;
        if known {
            assert(self@ =~= old(self)@.insert(text));
        } else {
            self.names.push(name);
            proof {
                let before = old(self).names@;
                assert forall|t: Seq<char>| self@.contains(t) == old(self)@.insert(text).contains(
                    t,
                ) by {
                    if old(self)@.contains(t) {
                        let i = choose|i: int| 0 <= i < before.len() && before[i]@ == t;
                        assert(self.names@[i]@ == t);
                    }
                    if t == text {
                        assert(self.names@[before.len() as int]@ == t);
                    }
                    if self@.contains(t) {
                        let i = choose|i: int|
                            0 <= i < self.names@.len() && self.names@[i]@ == t;
                        if i < before.len() {
                            assert(before[i]@ == t);
                        }
                    }
                }
                assert(self@ =~= old(self)@.insert(text));
            }
        }
        !known
    }
}

} // verus!
