//! Free-form options of a backend: texts under distinct keys.

use vstd::prelude::*;
use vstd::string::*;

verus! {

/// The position of the first entry under `key`, if there is one.
pub open spec fn position_of(entries: Seq<(String, String)>, key: Seq<char>) -> Option<int> {
    if exists|i: int| 0 <= i < entries.len() && (#[trigger] entries[i]).0@ == key {
        Some(choose|i: int| 0 <= i < entries.len() && (#[trigger] entries[i]).0@ == key)
    } else {
        None
    }
}

/// A mapping from keys to values, both texts. A key occurs at most once.
#[derive(Clone, Debug)]
pub struct OptionMap {
    entries: Vec<(String, String)>,
}

impl View for OptionMap {
    type V = Map<Seq<char>, Seq<char>>;

    closed spec fn view(&self) -> Map<Seq<char>, Seq<char>> {
        Map::new(
            |key: Seq<char>| position_of(self.entries@, key) is Some,
            |key: Seq<char>| self.entries@[position_of(self.entries@, key).unwrap()].1@,
        )
    }
}

impl OptionMap {
    /// No key occurs twice.
    pub closed spec fn wf(&self) -> bool {
        forall|i: int, j: int|
            0 <= i < j < self.entries@.len() ==> (#[trigger] self.entries@[i]).0@ != (
            #[trigger] self.entries@[j]).0@
    }

    /// A mapping without entries.
    pub fn new() -> (r: OptionMap)
        ensures
            r.wf(),
            r@ == Map::<Seq<char>, Seq<char>>::empty(),
    {
        let r = OptionMap { entries: Vec::new() };
        assert(r@ =~= Map::<Seq<char>, Seq<char>>::empty());
        r
    }

    fn find(&self, key: &String) -> (r: Option<usize>)
        requires
            self.wf(),
        ensures
            match r {
                Some(i) => i < self.entries@.len() && self.entries@[i as int].0@ == key@
                    && position_of(self.entries@, key@) == Some(i as int),
                None => position_of(self.entries@, key@) is None,
            },
    {
        let mut i: usize = 0;
        while i < self.entries.len()
            invariant
                self.wf(),
                i <= self.entries@.len(),
                forall|j: int| 0 <= j < i ==> (#[trigger] self.entries@[j]).0@ != key@,
            decreases self.entries@.len() - i,
        {
            if self.entries[i].0 == *key {
                return Some(i);
            }
            i = i + 1;
        }
        None
    }

    /// The value under `key`, if there is one.
    pub fn get(&self, key: &str) -> (r: Option<String>)
        requires
            self.wf(),
        ensures
            match r {
                Some(value) => self@.contains_key(key@) && self@[key@] == value@,
                None => !self@.contains_key(key@),
            },
    {
        let wanted = String::from_str(key);
        match self.find(&wanted) {
            Some(i) => Some(self.entries[i].1.clone()),
            None => None,
        }
    }

    /// Puts `value` under `key`, in place of the value that was there, if
    /// there was one.
    pub fn insert(&mut self, key: String, value: String)
        requires
            old(self).wf(),
        ensures
            final(self).wf(),
            final(self)@ == old(self)@.insert(key@, value@),
    {
        let ghost before = self.entries@;
        match self.find(&key) {
            Some(i) => {
                self.entries.set(i, (key, value));
                proof {
                    let after = self.entries@;
                    assert forall|k: Seq<char>| position_of(after, k) == position_of(
                        before,
                        k,
                    ) by {
                        lemma_positions_agree(before, after, k);
                    }
                    assert(self@ =~= old(self)@.insert(key@, value@));
                }
            },
            None => {
                self.entries.push((key, value));
                proof {
                    let after = self.entries@;
                    assert forall|k: Seq<char>|
                        position_of(after, k) == (if k == key@ {
                            Some(before.len() as int)
                        } else {
                            position_of(before, k)
                        }) by {
                        if k == key@ {
                            assert(after[before.len() as int].0@ == k);
                            let p = position_of(after, k).unwrap();
                            if p < before.len() {
                                assert(before[p].0@ == k);
                            }
                        } else if position_of(after, k) is Some {
                            let p = position_of(after, k).unwrap();
                            assert(before[p].0@ == k);
                            lemma_positions_agree(before, after, k);
                        } else if position_of(before, k) is Some {
                            let p = position_of(before, k).unwrap();
                            assert(after[p].0@ == k);
                        }
                    }
                    assert(self@ =~= old(self)@.insert(key@, value@));
                }
            },
        }
    }

    /// The number of entries.
    pub fn len(&self) -> (n: usize)
        requires
            self.wf(),
        ensures
            self@.dom().finite(),
            n == self@.dom().len(),
    {
        proof {
            lemma_key_count(self.entries@);
            assert(self@.dom() =~= key_set(self.entries@));
        }
        self.entries.len()
    }

    /// A second mapping with the same entries.
    pub fn duplicate(&self) -> (r: OptionMap)
        requires
            self.wf(),
        ensures
            r.wf(),
            r@ == self@,
    {
        let mut entries: Vec<(String, String)> = Vec::new();
        let mut i: usize = 0;
        while i < self.entries.len()
            invariant
                i <= self.entries@.len(),
                entries@.len() == i,
                forall|j: int|
                    0 <= j < i ==> (#[trigger] entries@[j]).0@ == self.entries@[j].0@
                        && entries@[j].1@ == self.entries@[j].1@,
            decreases self.entries@.len() - i,
        {
            entries.push((self.entries[i].0.clone(), self.entries[i].1.clone()));
            i = i + 1;
        }
        let r = OptionMap { entries };
        proof {
            assert forall|k: Seq<char>| position_of(r.entries@, k) == position_of(
                self.entries@,
                k,
            ) by {
                lemma_positions_agree(self.entries@, r.entries@, k);
            }
            assert(r@ =~= self@);
        }
        r
    }
}

/// Two lists with the same keys at the same positions, in neither of which a
/// key occurs twice, hold each key at the same position.
proof fn lemma_positions_agree(a: Seq<(String, String)>, b: Seq<(String, String)>, key: Seq<char>)
    requires
        a.len() <= b.len(),
        forall|i: int| 0 <= i < a.len() ==> (#[trigger] a[i]).0@ == b[i].0@,
        forall|i: int| a.len() <= i < b.len() ==> (#[trigger] b[i]).0@ != key,
        forall|i: int, j: int|
            0 <= i < j < a.len() ==> (#[trigger] a[i]).0@ != (#[trigger] a[j]).0@,
    ensures
        position_of(b, key) == position_of(a, key),
{
    if position_of(a, key) is Some {
        let p = position_of(a, key).unwrap();
        assert(b[p].0@ == key);
        let q = position_of(b, key).unwrap();
        assert(a[q].0@ == key);
    } else if position_of(b, key) is Some {
        let q = position_of(b, key).unwrap();
        assert(a[q].0@ == key);
    }
}

/// The keys that a list of entries holds.
spec fn key_set(entries: Seq<(String, String)>) -> Set<Seq<char>> {
    Set::new(|key: Seq<char>| position_of(entries, key) is Some)
}

/// A list in which no key occurs twice holds as many keys as entries.
proof fn lemma_key_count(entries: Seq<(String, String)>)
    requires
        forall|i: int, j: int|
            0 <= i < j < entries.len() ==> (#[trigger] entries[i]).0@ != (#[trigger] entries[j]).0@,
    ensures
        key_set(entries).finite(),
        key_set(entries).len() == entries.len(),
    decreases entries.len(),
{
    if entries.len() == 0 {
        assert(key_set(entries) =~= Set::<Seq<char>>::empty());
    } else {
        let head = entries.drop_last();
        let key = entries.last().0@;
        lemma_key_count(head);
        assert forall|k: Seq<char>| key_set(entries).contains(k) <==> (k == key || key_set(
            head,
        ).contains(k)) by {
            if position_of(head, k) is Some {
                let p = position_of(head, k).unwrap();
                assert(entries[p].0@ == k);
            }
            if k == key {
                assert(entries[entries.len() - 1].0@ == k);
            }
            if position_of(entries, k) is Some && k != key {
                let p = position_of(entries, k).unwrap();
                assert(head[p].0@ == k);
            }
        }
        assert(key_set(entries) =~= key_set(head).insert(key));
        if key_set(head).contains(key) {
            let p = position_of(head, key).unwrap();
            assert(entries[p].0@ == key);
            assert(false);
        }
    }
}

} // verus!
