//! A map from text to text, as an exchange carries it for its headers and its
//! properties.

use vstd::prelude::*;

verus! {

/// The map that a sequence of key/value pairs stands for: the pairs are
/// entered from first to last, so that of two pairs with one key the later
/// one decides.
pub open spec fn pairs_to_map(pairs: Seq<(Seq<char>, Seq<char>)>) -> Map<Seq<char>, Seq<char>>
    decreases pairs.len(),
{
    if pairs.len() == 0 {
        Map::empty()
    } else {
        pairs_to_map(pairs.drop_last()).insert(pairs.last().0, pairs.last().1)
    }
}

/// No key stands in two places of the sequence.
pub open spec fn distinct_keys(pairs: Seq<(Seq<char>, Seq<char>)>) -> bool {
    forall|i: int, j: int| 0 <= i < j < pairs.len() ==> pairs[i].0 != pairs[j].0
}

/// A key is in the map exactly when some pair of the sequence holds it.
pub proof fn lemma_map_has_key(pairs: Seq<(Seq<char>, Seq<char>)>, key: Seq<char>)
    ensures
        pairs_to_map(pairs).contains_key(key) <==> exists|i: int|
            0 <= i < pairs.len() && pairs[i].0 == key,
    decreases pairs.len(),
{
    if pairs.len() > 0 {
        let front = pairs.drop_last();
        lemma_map_has_key(front, key);
        if pairs_to_map(pairs).contains_key(key) {
            if pairs.last().0 == key {
                assert(pairs[pairs.len() - 1].0 == key);
            } else {
                let i = choose|i: int| 0 <= i < front.len() && front[i].0 == key;
                assert(pairs[i].0 == key);
            }
        }
        if exists|i: int| 0 <= i < pairs.len() && pairs[i].0 == key {
            let i = choose|i: int| 0 <= i < pairs.len() && pairs[i].0 == key;
            if i < pairs.len() - 1 {
                assert(front[i].0 == key);
            }
        }
    }
}

/// Where the keys are distinct, the map gives each key the value that stands
/// beside it in the sequence.
pub proof fn lemma_map_value(pairs: Seq<(Seq<char>, Seq<char>)>, i: int)
    requires
        distinct_keys(pairs),
        0 <= i < pairs.len(),
    ensures
        pairs_to_map(pairs).contains_key(pairs[i].0),
        pairs_to_map(pairs)[pairs[i].0] == pairs[i].1,
    decreases pairs.len(),
{
    if i < pairs.len() - 1 {
        let front = pairs.drop_last();
        assert(front[i] == pairs[i]);
        assert(pairs[i].0 != pairs[pairs.len() - 1].0);
        lemma_map_value(front, i);
    }
}

/// Replacing the value of one pair enters that key anew and leaves every other
/// key as it was.
pub proof fn lemma_map_replace(pairs: Seq<(Seq<char>, Seq<char>)>, i: int, value: Seq<char>)
    requires
        distinct_keys(pairs),
        0 <= i < pairs.len(),
    ensures
        pairs_to_map(pairs.update(i, (pairs[i].0, value))) == pairs_to_map(pairs).insert(
            pairs[i].0,
            value,
        ),
        distinct_keys(pairs.update(i, (pairs[i].0, value))),
    decreases pairs.len(),
{
    let changed = pairs.update(i, (pairs[i].0, value));
    let front = pairs.drop_last();
    if i == pairs.len() - 1 {
        assert(changed.drop_last() == front);
    } else {
        assert(front[i] == pairs[i]);
        assert(pairs[i].0 != pairs[pairs.len() - 1].0);
        lemma_map_replace(front, i, value);
        assert(changed.drop_last() == front.update(i, (pairs[i].0, value)));
        assert(changed.last() == pairs.last());
    }
    assert(pairs_to_map(changed) =~= pairs_to_map(pairs).insert(pairs[i].0, value));
}

/// Where the keys are distinct, the map has as many keys as the sequence has
/// pairs.
pub proof fn lemma_map_len(pairs: Seq<(Seq<char>, Seq<char>)>)
    requires
        distinct_keys(pairs),
    ensures
        pairs_to_map(pairs).dom().finite(),
        pairs_to_map(pairs).dom().len() == pairs.len(),
    decreases pairs.len(),
{
    if pairs.len() > 0 {
        let front = pairs.drop_last();
        lemma_map_len(front);
        lemma_map_has_key(front, pairs.last().0);
        if pairs_to_map(front).contains_key(pairs.last().0) {
            let i = choose|i: int| 0 <= i < front.len() && front[i].0 == pairs.last().0;
            assert(pairs[i].0 == pairs[pairs.len() - 1].0);
        }
        assert(pairs_to_map(pairs).dom() =~= pairs_to_map(front).dom().insert(pairs.last().0));
    }
}

/// A map from text to text with at most one value for each key.
///
/// The entries are kept in the order in which their keys first came in, which
/// [`StringMap::len`] and [`StringMap::entry`] let a caller walk through.
/// The view of the map is the mathematical map that these entries stand for.
#[derive(Debug)]
pub struct StringMap {
    entries: Vec<(String, String)>,
}

impl View for StringMap {
    type V = Map<Seq<char>, Seq<char>>;

    open spec fn view(&self) -> Map<Seq<char>, Seq<char>> {
        pairs_to_map(self.pairs())
    }
}

impl StringMap {
    /// The entries as pairs of key and value, in the order in which
    /// [`StringMap::entry`] hands them out.
    pub closed spec fn pairs(&self) -> Seq<(Seq<char>, Seq<char>)> {
        self.entries@.map_values(|e: (String, String)| (e.0@, e.1@))
    }

    #[verifier::type_invariant]
    spec fn keys_are_distinct(&self) -> bool {
        distinct_keys(self.pairs())
    }

    /// The empty map.
    pub fn new() -> (map: Self)
        ensures
            map@ == Map::<Seq<char>, Seq<char>>::empty(),
            map.pairs() == Seq::<(Seq<char>, Seq<char>)>::empty(),
    {
        let map = StringMap { entries: Vec::new() };
        assert(map.pairs() =~= Seq::<(Seq<char>, Seq<char>)>::empty());
        map
    }

    /// The place of `key` among the entries, if it has one.
    fn position(&self, key: &String) -> (place: Option<usize>)
        ensures
            match place {
                Some(i) => i < self.pairs().len() && self.pairs()[i as int].0 == key@,
                None => forall|j: int| 0 <= j < self.pairs().len() ==> self.pairs()[j].0 != key@,
            },
    {
        let mut i: usize = 0;
        while i < self.entries.len()
            invariant
                0 <= i <= self.entries.len(),
                forall|j: int| 0 <= j < i ==> self.pairs()[j].0 != key@,
            decreases self.entries.len() - i,
        {
            if self.entries[i].0 == *key {
                return Some(i);
            }
            i += 1;
        }
        None
    }

    /// The number of entries, which is the number of keys.
    pub fn len(&self) -> (count: usize)
        ensures
            count == self.pairs().len(),
            self@.dom().finite(),
            count == self@.dom().len(),
            distinct_keys(self.pairs()),
    {
        proof {
            use_type_invariant(self);
            lemma_map_len(self.pairs());
        }
        self.entries.len()
    }

    /// Whether the map holds no entry.
    pub fn is_empty(&self) -> (empty: bool)
        ensures
            empty == (self@ == Map::<Seq<char>, Seq<char>>::empty()),
    {
        proof {
            use_type_invariant(self);
            lemma_map_len(self.pairs());
            if self.pairs().len() == 0 {
                assert(self@ =~= Map::<Seq<char>, Seq<char>>::empty());
            }
        }
        self.entries.len() == 0
    }

    /// The entry at place `index`: its key and its value.
    pub fn entry(&self, index: usize) -> (pair: (&str, &str))
        requires
            index < self.pairs().len(),
        ensures
            (pair.0@, pair.1@) == self.pairs()[index as int],
    {
        (self.entries[index].0.as_str(), self.entries[index].1.as_str())
    }

    /// Whether the map holds a value for `key`.
    pub fn contains_key(&self, key: &str) -> (found: bool)
        ensures
            found == self@.contains_key(key@),
    {
        let wanted = key.to_owned();
        let place = self.position(&wanted);
        proof {
            use_type_invariant(self);
            lemma_map_has_key(self.pairs(), key@);
        }
        place.is_some()
    }

    /// The value that the map holds for `key`, if it holds one.
    pub fn get(&self, key: &str) -> (value: Option<&String>)
        ensures
            value is Some <==> self@.contains_key(key@),
            value is Some ==> value->0@ == self@[key@],
    {
        let wanted = key.to_owned();
        proof {
            use_type_invariant(self);
            lemma_map_has_key(self.pairs(), key@);
        }
        match self.position(&wanted) {
            Some(i) => {
                proof {
                    lemma_map_value(self.pairs(), i as int);
                }
                Some(&self.entries[i].1)
            },
            None => None,
        }
    }

    /// Gives `key` the value `value`, in place of the value it had, if it had
    /// one. Every other key keeps its value, and every entry keeps its place;
    /// a key that is new to the map goes to the end.
    pub fn insert(&mut self, key: String, value: String)
        ensures
            final(self)@ == old(self)@.insert(key@, value@),
            old(self)@.contains_key(key@) ==> exists|i: int|
                {
                    &&& 0 <= i < old(self).pairs().len()
                    &&& old(self).pairs()[i].0 == key@
                    &&& final(self).pairs() == #[trigger] old(self).pairs().update(i, (key@, value@))
                },
            !old(self)@.contains_key(key@) ==> final(self).pairs() == old(self).pairs().push(
                (key@, value@),
            ),
    {
        proof {
            use_type_invariant(&*self);
        }
        let ghost before = self.pairs();
        let place = self.position(&key);
        proof {
            lemma_map_has_key(before, key@);
        }
        let mut entries: Vec<(String, String)> = Vec::new();
        proof {
            assert(entries@.map_values(|e: (String, String)| (e.0@, e.1@)).len() == 0);
        }
        core::mem::swap(&mut self.entries, &mut entries);
        let ghost after;
        match place {
            Some(i) => {
                proof {
                    after = before.update(i as int, (before[i as int].0, value@));
                    lemma_map_replace(before, i as int, value@);
                }
                entries.set(i, (key, value));
            },
            None => {
                proof {
                    after = before.push((key@, value@));
                    assert(after.drop_last() =~= before);
                }
                entries.push((key, value));
            },
        }
        proof {
            assert(entries@.map_values(|e: (String, String)| (e.0@, e.1@)) =~= after);
            assert(distinct_keys(after));
            assert(pairs_to_map(after) == pairs_to_map(before).insert(key@, value@));
        }
        core::mem::swap(&mut self.entries, &mut entries);
    }
}

impl Clone for StringMap {
    /// A copy with the same entries in the same order.
    fn clone(&self) -> (copy: Self)
        ensures
            copy.pairs() == self.pairs(),
            copy@ == self@,
    {
        proof {
            use_type_invariant(self);
        }
        let mut entries: Vec<(String, String)> = Vec::new();
        let mut i: usize = 0;
        while i < self.entries.len()
            invariant
                0 <= i <= self.entries.len(),
                entries@ == self.entries@.take(i as int),
            decreases self.entries.len() - i,
        {
            let key = self.entries[i].0.clone();
            let value = self.entries[i].1.clone();
            entries.push((key, value));
            assert(entries@ =~= self.entries@.take(i + 1));
            i += 1;
        }
        assert(entries@ =~= self.entries@);
        StringMap { entries }
    }
}

} // verus!
