//! The in-memory tag mapping of an item: at most one value per key.

use vstd::prelude::*;
use vstd::string::*;

verus! {

/// The mapping that a list of key-value pairs folds into: a later pair
/// with the same key overwrites an earlier one.
pub open spec fn folded(pairs: Seq<(Seq<char>, Seq<char>)>) -> Map<Seq<char>, Seq<char>>
    decreases pairs.len(),
{
    if pairs.len() == 0 {
        Map::empty()
    } else {
        folded(pairs.drop_last()).insert(pairs.last().0, pairs.last().1)
    }
}

/// No key occurs twice.
pub open spec fn distinct_keys(pairs: Seq<(Seq<char>, Seq<char>)>) -> bool {
    forall|i: int, j: int| 0 <= i < j < pairs.len() ==> pairs[i].0 != pairs[j].0
}

/// The content of a list of owned pairs.
pub open spec fn pairs_view(entries: Seq<(String, String)>) -> Seq<(Seq<char>, Seq<char>)> {
    Seq::new(entries.len(), |i: int| (entries[i].0@, entries[i].1@))
}

/// Appending a pair sets its key.
pub proof fn lemma_folded_push(pairs: Seq<(Seq<char>, Seq<char>)>, pair: (Seq<char>, Seq<char>))
    ensures
        folded(pairs.push(pair)) == folded(pairs).insert(pair.0, pair.1),
{
    assert(pairs.push(pair).drop_last() =~= pairs);
}

/// A key is mapped exactly when some pair has it.
pub proof fn lemma_folded_keys(pairs: Seq<(Seq<char>, Seq<char>)>, key: Seq<char>)
    ensures
        folded(pairs).contains_key(key) <==> exists|i: int|
            0 <= i < pairs.len() && (#[trigger] pairs[i]).0 == key,
    decreases pairs.len(),
{
    if pairs.len() > 0 {
        let front = pairs.drop_last();
        lemma_folded_keys(front, key);
        if folded(pairs).contains_key(key) {
            if pairs.last().0 == key {
                assert(pairs[pairs.len() - 1].0 == key);
            } else {
                let i = choose|i: int| 0 <= i < front.len() && (#[trigger] front[i]).0 == key;
                assert(pairs[i].0 == key);
            }
        }
        if exists|i: int| 0 <= i < pairs.len() && (#[trigger] pairs[i]).0 == key {
            let i = choose|i: int| 0 <= i < pairs.len() && (#[trigger] pairs[i]).0 == key;
            if i < pairs.len() - 1 {
                assert(front[i].0 == key);
            }
        }
    }
}

/// Where no key occurs twice, each pair's key is mapped to that pair's
/// value.
pub proof fn lemma_folded_value(pairs: Seq<(Seq<char>, Seq<char>)>, i: int)
    requires
        distinct_keys(pairs),
        0 <= i < pairs.len(),
    ensures
        folded(pairs).contains_key(pairs[i].0),
        folded(pairs)[pairs[i].0] == pairs[i].1,
    decreases pairs.len(),
{
    if i < pairs.len() - 1 {
        let front = pairs.drop_last();
        assert(distinct_keys(front));
        lemma_folded_value(front, i);
        assert(front[i] == pairs[i]);
        assert(pairs[i].0 != pairs[pairs.len() - 1].0);
    }
}

/// Where no key occurs twice, replacing the value of one pair sets its key.
pub proof fn lemma_folded_update(pairs: Seq<(Seq<char>, Seq<char>)>, i: int, value: Seq<char>)
    requires
        distinct_keys(pairs),
        0 <= i < pairs.len(),
    ensures
        folded(pairs.update(i, (pairs[i].0, value))) == folded(pairs).insert(pairs[i].0, value),
        distinct_keys(pairs.update(i, (pairs[i].0, value))),
    decreases pairs.len(),
{
    let changed = pairs.update(i, (pairs[i].0, value));
    let front = pairs.drop_last();
    if i == pairs.len() - 1 {
        assert(changed.drop_last() =~= front);
        assert(folded(changed) =~= folded(pairs).insert(pairs[i].0, value));
    } else {
        assert(distinct_keys(front));
        lemma_folded_update(front, i, value);
        assert(changed.drop_last() =~= front.update(i, (front[i].0, value)));
        assert(changed.last() == pairs.last());
        assert(pairs[i].0 != pairs[pairs.len() - 1].0);
        assert(folded(changed) =~= folded(pairs).insert(pairs[i].0, value));
    }
}

/// The index of the first pair with the given key, or the length of the
/// list if no pair has it.
fn position(entries: &Vec<(String, String)>, key: &String) -> (r: usize)
    ensures
        r <= entries@.len(),
        forall|j: int| 0 <= j < r ==> (#[trigger] entries@[j]).0@ != key@,
        r < entries@.len() ==> entries@[r as int].0@ == key@,
{
    let mut i: usize = 0;
    while i < entries.len()
        invariant
            i <= entries@.len(),
            forall|j: int| 0 <= j < i ==> (#[trigger] entries@[j]).0@ != key@,
        decreases entries@.len() - i,
    {
        if entries[i].0 == *key {
            return i;
        }
        i += 1;
    }
    i
}

/// A mapping from tag key to tag value.
#[derive(Debug)]
pub struct TagMap {
    entries: Vec<(String, String)>,
}

impl View for TagMap {
    type V = Map<Seq<char>, Seq<char>>;

    closed spec fn view(&self) -> Map<Seq<char>, Seq<char>> {
        folded(pairs_view(self.entries@))
    }
}

impl TagMap {
    #[verifier::type_invariant]
    spec fn one_value_per_key(&self) -> bool {
        distinct_keys(pairs_view(self.entries@))
    }

    /// The empty mapping.
    pub fn new() -> (r: TagMap)
        ensures
            r@ == Map::<Seq<char>, Seq<char>>::empty(),
    {
        TagMap { entries: Vec::new() }
    }

    /// Sets the value of `key`, overwriting the value it had.
    pub fn set(&mut self, key: String, value: String)
        ensures
            final(self)@ == old(self)@.insert(key@, value@),
    {
        proof {
            use_type_invariant(&*self);
        }
        let mut taken = TagMap::new();
        core::mem::swap(self, &mut taken);
        let mut entries = taken.entries;
        let ghost before = pairs_view(entries@);
        let i = position(&entries, &key);
        if i < entries.len() {
            assert(before[i as int].0 == key@);
            entries.set(i, (key, value));
            proof {
                lemma_folded_update(before, i as int, value@);
                assert(pairs_view(entries@) =~= before.update(i as int, (key@, value@)));
            }
        } else {
            entries.push((key, value));
            proof {
                lemma_folded_push(before, (key@, value@));
                assert(pairs_view(entries@) =~= before.push((key@, value@)));
                assert forall|a: int, b: int| 0 <= a < b < before.len() + 1 implies before.push(
                    (key@, value@),
                )[a].0 != before.push((key@, value@))[b].0 by {
                    assert(entries@[a].0@ == before[a].0);
                }
            }
        }
        *self = TagMap { entries };
    }

    /// The value of `key`, if it has one.
    pub fn get(&self, key: &str) -> (r: Option<String>)
        ensures
            match r {
                Some(value) => self@.contains_key(key@) && self@[key@] == value@,
                None => !self@.contains_key(key@),
            },
    {
        proof {
            use_type_invariant(self);
        }
        let ghost pairs = pairs_view(self.entries@);
        let wanted = String::from_str(key);
        let i = position(&self.entries, &wanted);
        if i < self.entries.len() {
            proof {
                assert(pairs[i as int].0 == key@);
                lemma_folded_value(pairs, i as int);
            }
            Some(self.entries[i].1.clone())
        } else {
            proof {
                lemma_folded_keys(pairs, key@);
                assert forall|j: int| 0 <= j < pairs.len() implies (#[trigger] pairs[j]).0
                    != key@ by {
                    assert(self.entries@[j].0@ != key@);
                }
            }
            None
        }
    }

    /// The pairs of the mapping, each key once, in the order in which the
    /// keys were first set.
    pub fn pairs(&self) -> (r: Vec<(String, String)>)
        ensures
            distinct_keys(pairs_view(r@)),
            folded(pairs_view(r@)) == self@,
    {
        proof {
            use_type_invariant(self);
        }
        let n = self.entries.len();
        let mut out: Vec<(String, String)> = Vec::new();
        let mut i: usize = 0;
        while i < n
            invariant
                n == self.entries@.len(),
                i <= n,
                out@.len() == i,
                forall|j: int|
                    0 <= j < i ==> (#[trigger] out@[j]).0@ == self.entries@[j].0@ && out@[j].1@
                        == self.entries@[j].1@,
            decreases n - i,
        {
            out.push((self.entries[i].0.clone(), self.entries[i].1.clone()));
            i += 1;
        }
        proof {
            assert(pairs_view(out@) =~= pairs_view(self.entries@));
        }
        out
    }
}

impl Clone for TagMap {
    fn clone(&self) -> (r: TagMap)
        ensures
            r@ == self@,
    {
        TagMap { entries: self.pairs() }
    }
}

} // verus!
