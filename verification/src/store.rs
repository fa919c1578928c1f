//! A keyed store: one half of the context cache.
//!
//! Entries are held as an association vector with pairwise-distinct byte
//! keys; the store's view is the finite map from key bytes to the value's
//! mathematical value. `put` always overwrites, and `clear` drops every
//! entry at once.

use vstd::prelude::*;

use crate::types::Hex;

verus! {

/// A keyed store with byte-string keys and values of type `T`.
pub struct KeyedStore<T> {
    entries: Vec<(Hex, T)>,
}

impl<T: View> KeyedStore<T> {
    /// The map a sequence of entries denotes; a later binding of a key
    /// overrides an earlier one.
    pub closed spec fn map_of(s: Seq<(Hex, T)>) -> Map<Seq<u8>, T::V>
        decreases s.len(),
    {
        if s.len() == 0 {
            Map::empty()
        } else {
            Self::map_of(s.drop_last()).insert(s.last().0@, s.last().1@)
        }
    }

    /// The store's value as a map from key bytes to value views.
    pub closed spec fn view(&self) -> Map<Seq<u8>, T::V> {
        Self::map_of(self.entries@)
    }

    /// The keys of the entries are pairwise distinct.
    pub closed spec fn wf(&self) -> bool {
        forall|i: int, j: int|
            0 <= i < j < self.entries@.len() ==> (#[trigger] self.entries@[i].0@) != (
            #[trigger] self.entries@[j].0@)
    }

    proof fn lemma_map_of_contains(s: Seq<(Hex, T)>, k: Seq<u8>)
        ensures
            Self::map_of(s).contains_key(k) <==> exists|i: int|
                0 <= i < s.len() && (#[trigger] s[i].0@) == k,
        decreases s.len(),
    {
        if s.len() > 0 {
            Self::lemma_map_of_contains(s.drop_last(), k);
            if s.last().0@ == k {
                assert(s[s.len() - 1].0@ == k);
            } else if Self::map_of(s).contains_key(k) {
                let i = choose|i: int| 0 <= i < s.drop_last().len() && (#[trigger] s.drop_last()[i].0@)
                    == k;
                assert(s[i].0@ == k);
            } else {
                assert forall|i: int| 0 <= i < s.len() implies (#[trigger] s[i].0@) != k by {
                    if i < s.len() - 1 {
                        assert(s.drop_last()[i].0@ == s[i].0@);
                    }
                }
            }
        }
    }

    proof fn lemma_map_of_value(s: Seq<(Hex, T)>, i: int)
        requires
            0 <= i < s.len(),
            forall|a: int, b: int|
                0 <= a < b < s.len() ==> (#[trigger] s[a].0@) != (#[trigger] s[b].0@),
        ensures
            Self::map_of(s).contains_key(s[i].0@),
            Self::map_of(s)[s[i].0@] == s[i].1@,
        decreases s.len(),
    {
        if i == s.len() - 1 {
            Self::lemma_map_of_contains(s, s[i].0@);
        } else {
            assert(s.drop_last()[i] == s[i]);
            Self::lemma_map_of_value(s.drop_last(), i);
            assert(s.last().0@ != s[i].0@);
        }
    }

    proof fn lemma_map_of_update(s: Seq<(Hex, T)>, i: int, e: (Hex, T))
        requires
            0 <= i < s.len(),
            s[i].0@ == e.0@,
            forall|a: int, b: int|
                0 <= a < b < s.len() ==> (#[trigger] s[a].0@) != (#[trigger] s[b].0@),
        ensures
            Self::map_of(s.update(i, e)) == Self::map_of(s).insert(e.0@, e.1@),
        decreases s.len(),
    {
        let t = s.update(i, e);
        if i == s.len() - 1 {
            assert(t.drop_last() =~= s.drop_last());
            assert(t.last() == e);
            assert(Self::map_of(t) == Self::map_of(s.drop_last()).insert(e.0@, e.1@));
            assert(Self::map_of(s.drop_last()).insert(s.last().0@, s.last().1@).insert(e.0@, e.1@)
                =~= Self::map_of(s.drop_last()).insert(e.0@, e.1@));
        } else {
            assert(t.drop_last() =~= s.drop_last().update(i, e));
            assert(s.drop_last()[i] == s[i]);
            Self::lemma_map_of_update(s.drop_last(), i, e);
            assert(t.last() == s.last());
            assert(s.last().0@ != e.0@);
            assert(Self::map_of(t) == Self::map_of(s.drop_last()).insert(e.0@, e.1@).insert(
                s.last().0@,
                s.last().1@,
            ));
            assert(Self::map_of(s.drop_last()).insert(e.0@, e.1@).insert(s.last().0@, s.last().1@)
                =~= Self::map_of(s.drop_last()).insert(s.last().0@, s.last().1@).insert(
                e.0@,
                e.1@,
            ));
        }
    }

    /// An empty store.
    pub fn new() -> (r: Self)
        ensures
            r.wf(),
            r@ == Map::<Seq<u8>, T::V>::empty(),
    {
        let entries: Vec<(Hex, T)> = Vec::new();
        KeyedStore { entries }
    }

    /// Looks a key up; `Some` exactly when the store holds the key, and
    /// then the entry bound to it.
    pub fn get(&self, key: &Hex) -> (r: Option<&T>)
        requires
            self.wf(),
        ensures
            match r {
                Some(t) => self@.contains_key(key@) && t@ == self@[key@],
                None => !self@.contains_key(key@),
            },
    {
        let mut i: usize = 0;
        while i < self.entries.len()
            invariant
                self.wf(),
                i <= self.entries@.len(),
                forall|j: int| 0 <= j < i ==> (#[trigger] self.entries@[j].0@) != key@,
            decreases self.entries@.len() - i,
        {
            if hex_eq(&self.entries[i].0, key) {
                proof {
                    Self::lemma_map_of_value(self.entries@, i as int);
                }
                return Some(&self.entries[i].1);
            }
            i = i + 1;
        }
        proof {
            Self::lemma_map_of_contains(self.entries@, key@);
        }
        None
    }

    /// Binds a key to a value, overwriting any earlier binding.
    pub fn put(&mut self, key: Hex, value: T)
        requires
            old(self).wf(),
        ensures
            final(self).wf(),
            final(self)@ == old(self)@.insert(key@, value@),
    {
        let ghost entries0 = self.entries@;
        let mut i: usize = 0;
        while i < self.entries.len()
            invariant
                self.entries@ == entries0,
                entries0 == old(self).entries@,
                old(self).wf(),
                i <= entries0.len(),
                forall|a: int, b: int|
                    0 <= a < b < entries0.len() ==> (#[trigger] entries0[a].0@) != (
                #[trigger] entries0[b].0@),
                forall|j: int| 0 <= j < i ==> (#[trigger] entries0[j].0@) != key@,
            decreases entries0.len() - i,
        {
            if hex_eq(&self.entries[i].0, &key) {
                proof {
                    Self::lemma_map_of_update(entries0, i as int, (key, value));
                }
                self.entries[i] = (key, value);
                proof {
                    assert forall|a: int, b: int|
                        0 <= a < b < self.entries@.len() implies (#[trigger] self.entries@[a].0@)
                        != (#[trigger] self.entries@[b].0@) by {
                        assert(entries0[a].0@ != entries0[b].0@);
                    }
                }
                return ;
            }
            i = i + 1;
        }
        self.entries.push((key, value));
        proof {
            assert(self.entries@.drop_last() =~= entries0);
            assert forall|a: int, b: int|
                0 <= a < b < self.entries@.len() implies (#[trigger] self.entries@[a].0@) != (
            #[trigger] self.entries@[b].0@) by {
                if b < self.entries@.len() - 1 {
                    assert(entries0[a].0@ != entries0[b].0@);
                } else {
                    assert(entries0[a].0@ != key@);
                }
            }
        }
    }

    /// Removes every entry.
    pub fn clear(&mut self)
        ensures
            final(self).wf(),
            final(self)@ == Map::<Seq<u8>, T::V>::empty(),
    {
        self.entries.clear();
    }
}

/// Byte-for-byte equality of two byte strings.
fn hex_eq(a: &Hex, b: &Hex) -> (r: bool)
    ensures
        r == (a@ == b@),
{
    if a.hex.len() != b.hex.len() {
        return false;
    }
    let mut i: usize = 0;
    while i < a.hex.len()
        invariant
            i <= a.hex.len(),
            a.hex@.len() == b.hex@.len(),
            forall|j: int| 0 <= j < i ==> a.hex@[j] == b.hex@[j],
        decreases a.hex.len() - i,
    {
        if a.hex[i] != b.hex[i] {
            return false;
        }
        i = i + 1;
    }
    proof {
        assert(a.hex@ =~= b.hex@);
    }
    true
}

} // verus!
