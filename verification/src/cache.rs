//! A small cache that is keyed by text.

use crate::text::same_text;
use vstd::prelude::*;

verus! {

/// Values by textual key, each key at most once.
#[derive(Debug, Clone)]
pub struct Cache<V> {
    entries: Vec<(String, V)>,
}

impl<V> Cache<V> {
    /// No key occurs twice.
    pub closed spec fn well_formed(&self) -> bool {
        forall|i: int, j: int|
            0 <= i < j < self.entries@.len() ==> (#[trigger] self.entries@[i]).0@ != (
            #[trigger] self.entries@[j]).0@
    }

    /// The cache as a map from keys to values.
    pub closed spec fn view(&self) -> Map<Seq<char>, V> {
        Map::new(
            |key: Seq<char>| exists|i: int| 0 <= i < self.entries@.len() && self.entries@[i].0@ == key,
            |key: Seq<char>|
                self.entries@[choose|i: int| 0 <= i < self.entries@.len() && self.entries@[i].0@ == key].1,
        )
    }

    /// An empty cache.
    pub fn new() -> (cache: Self)
        ensures
            cache.well_formed(),
            cache@ == Map::<Seq<char>, V>::empty(),
    {
        let cache = Cache { entries: Vec::new() };
        assert(cache@ =~= Map::<Seq<char>, V>::empty());
        cache
    }

    /// The place of `key` among the entries.
    fn position(&self, key: &str) -> (place: Option<usize>)
        requires
            self.well_formed(),
        ensures
            match place {
                Some(place) => place < self.entries@.len() && self.entries@[place as int].0@ == key@,
                None => forall|i: int| 0 <= i < self.entries@.len() ==> self.entries@[i].0@ != key@,
            },
    {
        let mut i: usize = 0;
        while i < self.entries.len()
            invariant
                i <= self.entries.len(),
                forall|j: int| 0 <= j < i ==> self.entries@[j].0@ != key@,
            decreases self.entries.len() - i,
        {
            if same_text(self.entries[i].0.as_str(), key) {
                return Some(i);
            }
            i += 1;
        }
        None
    }

    /// The value under `key`, if there is one.
    pub fn get(&self, key: &str) -> (value: Option<&V>)
        requires
            self.well_formed(),
        ensures
            match value {
                Some(value) => self@.contains_key(key@) && *value == self@[key@],
                None => !self@.contains_key(key@),
            },
    {
        match self.position(key) {
            Some(place) => {
                assert(self@.contains_key(key@));
                Some(&self.entries[place].1)
            },
            None => None,
        }
    }

    /// Puts `value` under `key`, in place of what was there. Returns what was there.
    pub fn insert(&mut self, key: String, value: V) -> (previous: Option<V>)
        requires
            old(self).well_formed(),
        ensures
            final(self).well_formed(),
            final(self)@ == old(self)@.insert(key@, value),
            match previous {
                Some(previous) => old(self)@.contains_key(key@) && previous == old(self)@[key@],
                None => !old(self)@.contains_key(key@),
            },
    {
        match self.position(key.as_str()) {
            Some(place) => {
                assert(old(self)@.contains_key(key@));
                let previous = self.entries.remove(place);
                self.entries.insert(place, (key, value));
                assert(self.entries@ =~= old(self).entries@.update(place as int, (key, value)));
                assert(self@ =~= old(self)@.insert(key@, value)) by {
                    assert forall|k: Seq<char>| self@.contains_key(k) implies old(self)@.insert(
                        key@,
                        value,
                    ).contains_key(k) by {
                        let i = choose|i: int|
                            0 <= i < self.entries@.len() && self.entries@[i].0@ == k;
                        if i != place {
                            assert(old(self).entries@[i].0@ == k);
                        }
                    }
                    assert forall|k: Seq<char>|
                        old(self)@.insert(key@, value).contains_key(k) implies self@.contains_key(
                        k,
                    ) by {
                        if k != key@ {
                            let i = choose|i: int|
                                0 <= i < old(self).entries@.len() && old(self).entries@[i].0@ == k;
                            assert(self.entries@[i].0@ == k);
                        } else {
                            assert(self.entries@[place as int].0@ == k);
                        }
                    }
                }
                Some(previous.1)
            },
            None => {
                self.entries.push((key, value));
                let ghost last = old(self).entries@.len() as int;
                assert(self.entries@[last].0@ == key@);
                assert(self@ =~= old(self)@.insert(key@, value)) by {
                    assert forall|k: Seq<char>| self@.contains_key(k) implies old(self)@.insert(
                        key@,
                        value,
                    ).contains_key(k) by {
                        let i = choose|i: int|
                            0 <= i < self.entries@.len() && self.entries@[i].0@ == k;
                        if i != last {
                            assert(old(self).entries@[i].0@ == k);
                        }
                    }
                    assert forall|k: Seq<char>|
                        old(self)@.insert(key@, value).contains_key(k) implies self@.contains_key(
                        k,
                    ) by {
                        if k != key@ {
                            let i = choose|i: int|
                                0 <= i < old(self).entries@.len() && old(self).entries@[i].0@ == k;
                            assert(self.entries@[i].0@ == k);
                        } else {
                            assert(self.entries@[last].0@ == k);
                        }
                    }
                }
                None
            },
        }
    }

    /// Takes out what stands under `key`. Returns what was there.
    pub fn remove(&mut self, key: &str) -> (removed: Option<V>)
        requires
            old(self).well_formed(),
        ensures
            final(self).well_formed(),
            final(self)@ == old(self)@.remove(key@),
            match removed {
                Some(removed) => old(self)@.contains_key(key@) && removed == old(self)@[key@],
                None => !old(self)@.contains_key(key@),
            },
    {
        match self.position(key) {
            Some(place) => {
                assert(old(self)@.contains_key(key@));
                let removed = self.entries.remove(place);
                assert(self@ =~= old(self)@.remove(key@)) by {
                    assert forall|k: Seq<char>| self@.contains_key(k) implies old(self)@.remove(
                        key@,
                    ).contains_key(k) by {
                        let i = choose|i: int|
                            0 <= i < self.entries@.len() && self.entries@[i].0@ == k;
                        let from = if i < place {
                            i
                        } else {
                            i + 1
                        };
                        assert(old(self).entries@[from].0@ == k);
                    }
                    assert forall|k: Seq<char>|
                        old(self)@.remove(key@).contains_key(k) implies self@.contains_key(k) by {
                        let i = choose|i: int|
                            0 <= i < old(self).entries@.len() && old(self).entries@[i].0@ == k;
                        let to = if i < place {
                            i
                        } else {
                            i - 1
                        };
                        assert(self.entries@[to].0@ == k);
                    }
                    assert forall|k: Seq<char>| self@.contains_key(k) implies self@[k] == old(
                        self,
                    )@[k] by {
                        let i = choose|i: int|
                            0 <= i < self.entries@.len() && self.entries@[i].0@ == k;
                        let from = if i < place {
                            i
                        } else {
                            i + 1
                        };
                        assert(old(self).entries@[from].0@ == k);
                    }
                }
                Some(removed.1)
            },
            None => {
                assert(self@ =~= old(self)@.remove(key@));
                None
            },
        }
    }
}

} // verus!
