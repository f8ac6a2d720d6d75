//! The per-connection attribute store: a string-keyed map of tagged values
//! that handlers use to pass data to one another.  Reading a key under the
//! wrong tag is a normal "not found" outcome, not an error.

use vstd::prelude::*;

verus! {

/// A value stored in the attribute store: a tagged union over the plain
/// value shapes handlers exchange.
#[derive(Clone, Debug)]
pub enum AttrValue {
    /// A byte sequence.
    Bytes(Vec<u8>),
    /// A text value.
    Text(String),
    /// An unsigned integer.
    Int(u64),
    /// A boolean flag.
    Flag(bool),
}

/// The map an association list denotes: later entries win.
pub open spec fn assoc_map(s: Seq<(String, AttrValue)>) -> Map<Seq<char>, AttrValue>
    decreases s.len(),
{
    if s.len() == 0 {
        Map::<Seq<char>, AttrValue>::empty()
    } else {
        assoc_map(s.drop_last()).insert(s.last().0@, s.last().1)
    }
}

/// Whether the entries carry pairwise distinct keys.
pub open spec fn distinct_keys(s: Seq<(String, AttrValue)>) -> bool {
    forall|i: int, j: int| 0 <= i < j < s.len() ==> (#[trigger] s[i]).0@ != (#[trigger] s[j]).0@
}

/// A key is in the denoted map exactly when some entry carries it.
proof fn lemma_assoc_contains(s: Seq<(String, AttrValue)>, k: Seq<char>)
    ensures
        assoc_map(s).contains_key(k) <==> exists|i: int| 0 <= i < s.len() && (#[trigger] s[i]).0@
            == k,
    decreases s.len(),
{
    if s.len() > 0 {
        lemma_assoc_contains(s.drop_last(), k);
        if s.last().0@ == k {
            assert((s[s.len() - 1]).0@ == k);
        } else if assoc_map(s).contains_key(k) {
            let i = choose|i: int| 0 <= i < s.drop_last().len() && (#[trigger] s.drop_last()[i]).0@
                == k;
            assert((s[i]).0@ == k);
        } else {
            if exists|i: int| 0 <= i < s.len() && (#[trigger] s[i]).0@ == k {
                let i = choose|i: int| 0 <= i < s.len() && (#[trigger] s[i]).0@ == k;
                assert((s.drop_last()[i]).0@ == k);
            }
        }
    }
}

/// With distinct keys, the entry carrying a key gives its value in the
/// denoted map.
proof fn lemma_assoc_get(s: Seq<(String, AttrValue)>, i: int)
    requires
        distinct_keys(s),
        0 <= i < s.len(),
    ensures
        assoc_map(s).contains_key(s[i].0@),
        assoc_map(s)[s[i].0@] == s[i].1,
    decreases s.len(),
{
    if i == s.len() - 1 {
        assert(s.last() == s[i]);
    } else {
        assert(distinct_keys(s.drop_last())) by {
            assert(forall|a: int, b: int|
                0 <= a < b < s.drop_last().len() ==> (#[trigger] s.drop_last()[a]).0@ != (
                #[trigger] s.drop_last()[b]).0@);
        }
        lemma_assoc_get(s.drop_last(), i);
        assert(s.drop_last()[i] == s[i]);
        assert(s[i].0@ != s.last().0@);
    }
}

/// With distinct keys, removing the entry that carries a key removes that
/// key from the denoted map.
proof fn lemma_assoc_remove(s: Seq<(String, AttrValue)>, i: int)
    requires
        distinct_keys(s),
        0 <= i < s.len(),
    ensures
        assoc_map(s.remove(i)) == assoc_map(s).remove(s[i].0@),
    decreases s.len(),
{
    let k = s[i].0@;
    if i == s.len() - 1 {
        assert(s.remove(i) =~= s.drop_last());
        lemma_assoc_contains(s.drop_last(), k);
        assert(forall|j: int|
            0 <= j < s.drop_last().len() ==> (#[trigger] s.drop_last()[j]).0@ != k);
        assert(!assoc_map(s.drop_last()).contains_key(k));
        assert(assoc_map(s.drop_last()).insert(k, s.last().1).remove(k) =~= assoc_map(
            s.drop_last(),
        ));
    } else {
        assert(distinct_keys(s.drop_last())) by {
            assert(forall|a: int, b: int|
                0 <= a < b < s.drop_last().len() ==> (#[trigger] s.drop_last()[a]).0@ != (
                #[trigger] s.drop_last()[b]).0@);
        }
        assert(s.drop_last()[i] == s[i]);
        lemma_assoc_remove(s.drop_last(), i);
        assert(s.remove(i).drop_last() =~= s.drop_last().remove(i));
        assert(s.remove(i).last() == s.last());
        assert(assoc_map(s.remove(i)) == assoc_map(s.drop_last().remove(i)).insert(
            s.last().0@,
            s.last().1,
        ));
        assert(s.last().0@ != k);
        assert(assoc_map(s.drop_last()).remove(k).insert(s.last().0@, s.last().1)
            =~= assoc_map(s.drop_last()).insert(s.last().0@, s.last().1).remove(k));
    }
}

/// The string-keyed attribute store.  Entries keep pairwise distinct keys;
/// its mathematical content is the map from key text to stored value.
#[derive(Clone, Debug)]
pub struct AttrMap {
    entries: Vec<(String, AttrValue)>,
}

impl View for AttrMap {
    type V = Map<Seq<char>, AttrValue>;

    closed spec fn view(&self) -> Map<Seq<char>, AttrValue> {
        assoc_map(self.entries@)
    }
}

impl AttrMap {
    /// The store keeps pairwise distinct keys.
    pub closed spec fn wf(self) -> bool {
        distinct_keys(self.entries@)
    }

    /// An empty store.
    pub fn new() -> (r: Self)
        ensures
            r.wf(),
            r@ == Map::<Seq<char>, AttrValue>::empty(),
    {
        AttrMap { entries: Vec::new() }
    }

    /// Finds the position of the entry carrying `key`, if any.
    fn find(&self, key: &String) -> (r: Option<usize>)
        requires
            self.wf(),
        ensures
            match r {
                Some(i) => i < self.entries@.len() && self.entries@[i as int].0@ == key@
                    && self@.contains_key(key@) && self@[key@] == self.entries@[i as int].1,
                None => !self@.contains_key(key@),
            },
    {
        let mut i: usize = 0;
        while i < self.entries.len()
            invariant
                i <= self.entries@.len(),
                self.wf(),
                forall|j: int| 0 <= j < i ==> (#[trigger] self.entries@[j]).0@ != key@,
            decreases self.entries@.len() - i,
        {
            if self.entries[i].0 == *key {
                proof {
                    lemma_assoc_get(self.entries@, i as int);
                }
                return Some(i);
            }
            i = i + 1;
        }
        proof {
            lemma_assoc_contains(self.entries@, key@);
        }
        None
    }

    /// Stores `value` under `key`, replacing any previous value.
    pub fn insert(&mut self, key: &String, value: AttrValue)
        requires
            old(self).wf(),
        ensures
            final(self).wf(),
            final(self)@ == old(self)@.insert(key@, value),
    {
        self.remove(key);
        let ghost before = self.entries@;
        self.entries.push((key.clone(), value));
        proof {
            assert(self.entries@.drop_last() =~= before);
            assert(forall|j: int| 0 <= j < before.len() ==> (#[trigger] before[j]).0@ != key@)
                by {
                lemma_assoc_contains(before, key@);
            }
            assert(old(self)@.remove(key@).insert(key@, value) =~= old(self)@.insert(
                key@,
                value,
            ));
        }
    }

    /// The value stored under `key`, or nothing if the key is absent.
    pub fn get(&self, key: &String) -> (r: Option<&AttrValue>)
        requires
            self.wf(),
        ensures
            match r {
                Some(v) => self@.contains_key(key@) && *v == self@[key@],
                None => !self@.contains_key(key@),
            },
    {
        match self.find(key) {
            Some(i) => Some(&self.entries[i].1),
            None => None,
        }
    }

    /// Removes the value stored under `key`, if any.
    pub fn remove(&mut self, key: &String)
        requires
            old(self).wf(),
        ensures
            final(self).wf(),
            final(self)@ == old(self)@.remove(key@),
    {
        match self.find(key) {
            Some(i) => {
                proof {
                    lemma_assoc_remove(self.entries@, i as int);
                }
                let ghost before = self.entries@;
                self.entries.remove(i);
                proof {
                    assert(distinct_keys(before.remove(i as int))) by {
                        assert(forall|a: int, b: int|
                            0 <= a < b < before.remove(i as int).len() ==> (#[trigger] before.remove(
                                i as int,
                            )[a]).0@ != (#[trigger] before.remove(i as int)[b]).0@);
                    }
                }
            },
            None => {
                proof {
                    assert(self@.remove(key@) =~= self@);
                }
            },
        }
    }

    /// Removes every entry.
    pub fn clear(&mut self)
        ensures
            final(self).wf(),
            final(self)@ == Map::<Seq<char>, AttrValue>::empty(),
    {
        self.entries.clear();
    }
}

} // verus!
