//! A map from strings to strings, kept as a list of pairs in the order in
//! which they were inserted. A later pair supersedes an earlier one with the
//! same key.

use vstd::prelude::*;
use vstd::string::*;

verus! {

/// A map from strings to strings.
#[derive(Debug, PartialEq, Eq)]
pub struct StringMap {
    pub entries: Vec<(String, String)>,
}

/// The map that a list of pairs stands for: each pair is inserted in turn.
pub open spec fn pairs_map(pairs: Seq<(String, String)>) -> Map<Seq<char>, Seq<char>>
    decreases pairs.len(),
{
    if pairs.len() == 0 {
        Map::empty()
    } else {
        pairs_map(pairs.drop_last()).insert(pairs.last().0@, pairs.last().1@)
    }
}

impl View for StringMap {
    type V = Map<Seq<char>, Seq<char>>;

    open spec fn view(&self) -> Map<Seq<char>, Seq<char>> {
        pairs_map(self.entries@)
    }
}

/// Adding a pair at the end inserts it into the map.
pub proof fn lemma_pairs_map_push(pairs: Seq<(String, String)>, pair: (String, String))
    ensures
        pairs_map(pairs.push(pair)) == pairs_map(pairs).insert(pair.0@, pair.1@),
{
    assert(pairs.push(pair).drop_last() =~= pairs);
}

/// A key is in the map exactly when some pair holds it.
pub proof fn lemma_pairs_map_dom(pairs: Seq<(String, String)>, key: Seq<char>)
    ensures
        pairs_map(pairs).contains_key(key) <==> exists|i: int|
            0 <= i < pairs.len() && (#[trigger] pairs[i]).0@ == key,
    decreases pairs.len(),
{
    if pairs.len() > 0 {
        let front = pairs.drop_last();
        lemma_pairs_map_dom(front, key);
        if pairs_map(pairs).contains_key(key) {
            if pairs.last().0@ == key {
                assert(pairs[pairs.len() - 1].0@ == key);
            } else {
                let i = choose|i: int| 0 <= i < front.len() && (#[trigger] front[i]).0@ == key;
                assert(pairs[i].0@ == key);
            }
        }
        if exists|i: int| 0 <= i < pairs.len() && (#[trigger] pairs[i]).0@ == key {
            let i = choose|i: int| 0 <= i < pairs.len() && (#[trigger] pairs[i]).0@ == key;
            if i < pairs.len() - 1 {
                assert(front[i].0@ == key);
            }
        }
    }
}

/// The value of a key is that of the last pair that holds it.
pub proof fn lemma_pairs_map_last(pairs: Seq<(String, String)>, i: int)
    requires
        0 <= i < pairs.len(),
        forall|j: int| i < j < pairs.len() ==> (#[trigger] pairs[j]).0@ != pairs[i].0@,
    ensures
        pairs_map(pairs).contains_key(pairs[i].0@),
        pairs_map(pairs)[pairs[i].0@] == pairs[i].1@,
    decreases pairs.len(),
{
    if i < pairs.len() - 1 {
        let front = pairs.drop_last();
        assert(pairs[pairs.len() - 1].0@ != pairs[i].0@);
        assert forall|j: int| i < j < front.len() implies (#[trigger] front[j]).0@
            != front[i].0@ by {
            assert(pairs[j].0@ != pairs[i].0@);
        }
        lemma_pairs_map_last(front, i);
    }
}

impl Clone for StringMap {
    fn clone(&self) -> (r: Self)
        ensures
            r@ == self@,
    {
        let mut out: Vec<(String, String)> = Vec::new();
        let mut i: usize = 0;
        while i < self.entries.len()
            invariant
                i <= self.entries.len(),
                pairs_map(out@) == pairs_map(self.entries@.take(i as int)),
            decreases self.entries.len() - i,
        {
            let pair = (self.entries[i].0.clone(), self.entries[i].1.clone());
            proof {
                lemma_pairs_map_push(out@, pair);
                lemma_pairs_map_push(self.entries@.take(i as int), self.entries@[i as int]);
                assert(self.entries@.take(i + 1) =~= self.entries@.take(i as int).push(
                    self.entries@[i as int],
                ));
            }
            out.push(pair);
            i += 1;
        }
        proof {
            assert(self.entries@.take(i as int) =~= self.entries@);
        }
        StringMap { entries: out }
    }
}

impl StringMap {
    /// The empty map.
    pub fn new() -> (r: Self)
        ensures
            r@ == Map::<Seq<char>, Seq<char>>::empty(),
    {
        StringMap { entries: Vec::new() }
    }

    /// Sets the value of `key` to `value`, whatever it was before.
    pub fn insert(&mut self, key: String, value: String)
        ensures
            final(self)@ == old(self)@.insert(key@, value@),
    {
        proof {
            lemma_pairs_map_push(self.entries@, (key, value));
        }
        self.entries.push((key, value));
    }

    /// The value of `key`, if it has one.
    pub fn get(&self, key: &str) -> (r: Option<&String>)
        ensures
            match r {
                Some(v) => self@.contains_key(key@) && v@ == self@[key@],
                None => !self@.contains_key(key@),
            },
    {
        let probe = String::from_str(key);
        let mut i: usize = self.entries.len();
        while i > 0
            invariant
                i <= self.entries.len(),
                probe@ == key@,
                forall|j: int| i <= j < self.entries.len() ==> (#[trigger] self.entries@[j]).0@ != key@,
            decreases i,
        {
            i -= 1;
            if self.entries[i].0 == probe {
                proof {
                    lemma_pairs_map_last(self.entries@, i as int);
                }
                return Some(&self.entries[i].1);
            }
        }
        proof {
            lemma_pairs_map_dom(self.entries@, key@);
        }
        None
    }

    /// Tells whether `key` has a value.
    pub fn contains_key(&self, key: &str) -> (r: bool)
        ensures
            r == self@.contains_key(key@),
    {
        self.get(key).is_some()
    }

    /// A copy of the value of `key`, if it has one.
    pub fn get_cloned(&self, key: &str) -> (r: Option<String>)
        ensures
            match r {
                Some(v) => self@.contains_key(key@) && v@ == self@[key@],
                None => !self@.contains_key(key@),
            },
    {
        match self.get(key) {
            Some(v) => Some(v.clone()),
            None => None,
        }
    }
}

/// Tells whether no key stands twice in a list of pairs.
pub open spec fn distinct_keys(pairs: Seq<(String, String)>) -> bool {
    forall|i: int, j: int|
        0 <= i < j < pairs.len() ==> (#[trigger] pairs[i]).0@ != (#[trigger] pairs[j]).0@
}

/// Tells whether some pair of the list holds the key.
pub open spec fn has_key(pairs: Seq<(String, String)>, key: Seq<char>) -> bool {
    exists|i: int| 0 <= i < pairs.len() && (#[trigger] pairs[i]).0@ == key
}

/// A list without a repeated key stands for the map that gives each of its
/// keys the value beside it.
pub proof fn lemma_distinct_pairs_map(pairs: Seq<(String, String)>, i: int)
    requires
        distinct_keys(pairs),
        0 <= i < pairs.len(),
    ensures
        pairs_map(pairs).contains_key(pairs[i].0@),
        pairs_map(pairs)[pairs[i].0@] == pairs[i].1@,
{
    lemma_pairs_map_last(pairs, i);
}

/// Tells whether some pair of the list holds the key.
fn holds_key(pairs: &Vec<(String, String)>, key: &String) -> (r: bool)
    ensures
        r == has_key(pairs@, key@),
{
    let mut i: usize = 0;
    while i < pairs.len()
        invariant
            i <= pairs.len(),
            forall|j: int| 0 <= j < i ==> (#[trigger] pairs@[j]).0@ != key@,
        decreases pairs.len() - i,
    {
        if pairs[i].0 == *key {
            return true;
        }
        i += 1;
    }
    false
}

impl StringMap {
    /// The pairs of the map, each key once: for every key the pair that was
    /// inserted last, the keys in the order in which they were last inserted,
    /// from the latest back.
    pub fn distinct_pairs(&self) -> (r: Vec<(String, String)>)
        ensures
            distinct_keys(r@),
            pairs_map(r@) == self@,
    {
        let mut out: Vec<(String, String)> = Vec::new();
        let mut i: usize = self.entries.len();
        while i > 0
            invariant
                i <= self.entries.len(),
                distinct_keys(out@),
                forall|k: Seq<char>|
                    has_key(out@, k) <==> exists|j: int|
                        i <= j < self.entries.len() && (#[trigger] self.entries@[j]).0@ == k,
                forall|t: int|
                    0 <= t < out@.len() ==> pairs_map(self.entries@).contains_key(
                        (#[trigger] out@[t]).0@,
                    ) && pairs_map(self.entries@)[out@[t].0@] == out@[t].1@,
            decreases i,
        {
            i -= 1;
            let ghost before = out@;
            let ghost key = self.entries@[i as int].0@;
            if !holds_key(&out, &self.entries[i].0) {
                let pair = (self.entries[i].0.clone(), self.entries[i].1.clone());
                proof {
                    // No later pair holds the key, so this one gives its value.
                    assert forall|j: int| i < j < self.entries.len() implies (
                    #[trigger] self.entries@[j]).0@ != key by {
                        if self.entries@[j].0@ == key {
                            assert(has_key(before, key));
                        }
                    }
                    lemma_pairs_map_last(self.entries@, i as int);
                }
                out.push(pair);
                proof {
                    let after = out@;
                    assert forall|a: int, b: int| 0 <= a < b < after.len() implies (
                    #[trigger] after[a]).0@ != (#[trigger] after[b]).0@ by {
                        if b == after.len() - 1 {
                            assert(after[a] == before[a]);
                            if before[a].0@ == key {
                                assert(has_key(before, key));
                            }
                        } else {
                            assert(after[a] == before[a] && after[b] == before[b]);
                        }
                    }
                    assert forall|k: Seq<char>| has_key(after, k) <==> exists|j: int|
                        i <= j < self.entries.len() && (#[trigger] self.entries@[j]).0@
                            == k by {
                        if has_key(after, k) {
                            let t = choose|t: int| 0 <= t < after.len() && (#[trigger] after[t]).0@ == k;
                            if t < before.len() {
                                assert(before[t].0@ == k);
                                assert(has_key(before, k));
                            } else {
                                assert(self.entries@[i as int].0@ == k);
                            }
                        }
                        if exists|j: int|
                            i <= j < self.entries.len() && (#[trigger] self.entries@[j]).0@ == k {
                            let j = choose|j: int|
                                i <= j < self.entries.len() && (#[trigger] self.entries@[j]).0@ == k;
                            if j == i {
                                assert(after[after.len() - 1].0@ == k);
                            } else {
                                assert(has_key(before, k));
                                let t = choose|t: int|
                                    0 <= t < before.len() && (#[trigger] before[t]).0@ == k;
                                assert(after[t].0@ == k);
                            }
                        }
                    }
                    assert forall|t: int| 0 <= t < after.len() implies pairs_map(
                        self.entries@,
                    ).contains_key((#[trigger] after[t]).0@) && pairs_map(
                        self.entries@,
                    )[after[t].0@] == after[t].1@ by {
                        if t < before.len() {
                            assert(after[t] == before[t]);
                        }
                    }
                }
            } else {
                proof {
                    assert forall|k: Seq<char>| has_key(before, k) <==> exists|j: int|
                        i <= j < self.entries.len() && (#[trigger] self.entries@[j]).0@
                            == k by {
                        if exists|j: int|
                            i <= j < self.entries.len() && (#[trigger] self.entries@[j]).0@ == k {
                            let j = choose|j: int|
                                i <= j < self.entries.len() && (#[trigger] self.entries@[j]).0@ == k;
                            if j == i {
                                assert(has_key(before, key));
                            }
                        }
                        if has_key(before, k) {
                            let j = choose|j: int|
                                i + 1 <= j < self.entries.len() && (#[trigger] self.entries@[j]).0@
                                    == k;
                            assert(i <= j < self.entries.len() && self.entries@[j].0@ == k);
                        }
                    }
                }
            }
        }
        proof {
            let whole = pairs_map(self.entries@);
            let made = pairs_map(out@);
            assert forall|k: Seq<char>| made.contains_key(k) <==> whole.contains_key(k) by {
                lemma_pairs_map_dom(out@, k);
                lemma_pairs_map_dom(self.entries@, k);
                if has_key(out@, k) {
                    let j = choose|j: int|
                        0 <= j < self.entries.len() && (#[trigger] self.entries@[j]).0@ == k;
                    assert(self.entries@[j].0@ == k);
                }
                if exists|j: int|
                    0 <= j < self.entries@.len() && (#[trigger] self.entries@[j]).0@ == k {
                    assert(has_key(out@, k));
                }
            }
            assert forall|k: Seq<char>| made.contains_key(k) implies made[k] == whole[k] by {
                lemma_pairs_map_dom(out@, k);
                let t = choose|t: int| 0 <= t < out@.len() && (#[trigger] out@[t]).0@ == k;
                lemma_distinct_pairs_map(out@, t);
            }
            assert(made =~= whole);
        }
        out
    }
}

} // verus!
