//! Commit drafts by repository root, and sets of roots.

use crate::text::same_text;
use vstd::prelude::*;
use vstd::string::*;

verus! {

/// Texts by key, each key once.
#[derive(Debug)]
pub struct Drafts {
    entries: Vec<(String, String)>,
}

/// What pairs hold, by key; of pairs with one key the last counts.
spec fn pairs_map(pairs: Seq<(String, String)>) -> Map<Seq<char>, Seq<char>>
    decreases pairs.len(),
{
    if pairs.len() == 0 {
        Map::empty()
    } else {
        pairs_map(pairs.drop_last()).insert(pairs.last().0@, pairs.last().1@)
    }
}

/// No key stands twice.
spec fn single_keys(pairs: Seq<(String, String)>) -> bool {
    forall|i: int, j: int|
        0 <= i < j < pairs.len() ==> (#[trigger] pairs[i]).0@ != (#[trigger] pairs[j]).0@
}

/// Where no key stands twice, each pair is found under its key and nothing else is.
proof fn lemma_pairs(pairs: Seq<(String, String)>)
    requires
        single_keys(pairs),
    ensures
        forall|i: int|
            0 <= i < pairs.len() ==> pairs_map(pairs).dom().contains((#[trigger] pairs[i]).0@)
                && pairs_map(pairs)[pairs[i].0@] == pairs[i].1@,
        forall|key: Seq<char>| #[trigger]
            pairs_map(pairs).dom().contains(key) ==> exists|i: int|
                0 <= i < pairs.len() && (#[trigger] pairs[i]).0@ == key,
    decreases pairs.len(),
{
    if pairs.len() > 0 {
        let rest = pairs.drop_last();
        assert(single_keys(rest)) by {
            assert forall|i: int, j: int| 0 <= i < j < rest.len() implies (#[trigger] rest[i]).0@
                != (#[trigger] rest[j]).0@ by {
                assert(rest[i] == pairs[i] && rest[j] == pairs[j]);
            }
        }
        lemma_pairs(rest);
        assert forall|i: int| 0 <= i < pairs.len() implies pairs_map(pairs).dom().contains(
            (#[trigger] pairs[i]).0@,
        ) && pairs_map(pairs)[pairs[i].0@] == pairs[i].1@ by {
            if i < rest.len() {
                assert(rest[i] == pairs[i]);
                assert(pairs[i].0@ != pairs[pairs.len() - 1].0@);
            }
        }
        assert forall|key: Seq<char>| #[trigger]
            pairs_map(pairs).dom().contains(key) implies exists|i: int|
            0 <= i < pairs.len() && (#[trigger] pairs[i]).0@ == key by {
            if key == pairs.last().0@ {
                assert(pairs[pairs.len() - 1].0@ == key);
            } else {
                assert(pairs_map(rest).dom().contains(key));
                let i = choose|i: int| 0 <= i < rest.len() && (#[trigger] rest[i]).0@ == key;
                assert(pairs[i].0@ == key);
            }
        }
    }
}

impl Drafts {
    /// The texts by key.
    pub closed spec fn view(&self) -> Map<Seq<char>, Seq<char>> {
        pairs_map(self.entries@)
    }

    #[verifier::type_invariant]
    spec fn valid(&self) -> bool {
        single_keys(self.entries@)
    }

    /// No drafts.
    pub fn new() -> (r: Drafts)
        ensures
            r@ == Map::<Seq<char>, Seq<char>>::empty(),
    {
        Drafts { entries: Vec::new() }
    }

    /// How many drafts there are: as many as there are keys, each of which stands once.
    pub fn len(&self) -> (r: usize)
        ensures
            r == self.keys().len(),
            forall|key: Seq<char>| #[trigger]
                self@.dom().contains(key) <==> self.keys().contains(key),
            self.keys().no_duplicates(),
    {
        proof {
            use_type_invariant(self);
            lemma_pairs(self.entries@);
            let keys = self.keys();
            assert forall|key: Seq<char>| #[trigger] self@.dom().contains(key) <==> keys.contains(
                key,
            ) by {
                if self@.dom().contains(key) {
                    let i = choose|i: int|
                        0 <= i < self.entries@.len() && (#[trigger] self.entries@[i]).0@ == key;
                    assert(keys[i] == key);
                }
                if keys.contains(key) {
                    let i = choose|i: int| 0 <= i < keys.len() && keys[i] == key;
                    assert(self.entries@[i].0@ == key);
                }
            }
            assert forall|i: int, j: int|
                0 <= i < keys.len() && 0 <= j < keys.len() && i != j implies keys[i]
                != keys[j] by {
                if i < j {
                    assert(self.entries@[i].0@ != self.entries@[j].0@);
                } else {
                    assert(self.entries@[j].0@ != self.entries@[i].0@);
                }
            }
        }
        self.entries.len()
    }

    /// Where `key` stands.
    fn position(&self, key: &str) -> (r: Option<usize>)
        ensures
            match r {
                Some(i) => i < self.entries@.len() && self.entries@[i as int].0@ == key@,
                None => forall|i: int|
                    0 <= i < self.entries@.len() ==> (#[trigger] self.entries@[i]).0@ != key@,
            },
    {
        for i in 0..self.entries.len()
            invariant
                forall|j: int| 0 <= j < i ==> (#[trigger] self.entries@[j]).0@ != key@,
        {
            if same_text(self.entries[i].0.as_str(), key) {
                return Some(i);
            }
        }
        None
    }

    /// The draft under `key`.
    pub fn get(&self, key: &str) -> (r: Option<&String>)
        ensures
            match r {
                Some(text) => self@.dom().contains(key@) && self@[key@] == text@,
                None => !self@.dom().contains(key@),
            },
    {
        proof {
            use_type_invariant(self);
            lemma_pairs(self.entries@);
        }
        match self.position(key) {
            Some(i) => Some(&self.entries[i].1),
            None => None,
        }
    }

    /// Whether there is a draft under `key`.
    pub fn contains_key(&self, key: &str) -> (r: bool)
        ensures
            r == self@.dom().contains(key@),
    {
        self.get(key).is_some()
    }

    /// The key and the text of the draft at `index`.
    pub fn entry(&self, index: usize) -> (r: Option<(&String, &String)>)
        ensures
            r matches Some((key, text)) ==> self@.dom().contains(key@) && self@[key@] == text@,
            r is Some <==> self.keys().len() > index,
            r matches Some((key, _)) ==> self.keys()[index as int] == key@,
    {
        proof {
            use_type_invariant(self);
            lemma_pairs(self.entries@);
        }
        if index < self.entries.len() {
            Some((&self.entries[index].0, &self.entries[index].1))
        } else {
            None
        }
    }

    /// The keys, each once, in the order in which they are kept.
    pub closed spec fn keys(&self) -> Seq<Seq<char>> {
        self.entries@.map_values(|pair: (String, String)| pair.0@)
    }

    /// Takes the draft under `key` out.
    pub fn remove(&mut self, key: &str)
        ensures
            final(self)@ == old(self)@.remove(key@),
    {
        proof {
            use_type_invariant(&*self);
            lemma_pairs(self.entries@);
        }
        let ghost before = self.entries@;
        let ghost seen = self@;
        match self.position(key) {
            Some(i) => {
                let mut entries: Vec<(String, String)> = Vec::new();
                std::mem::swap(&mut entries, &mut self.entries);
                entries.remove(i);
                proof {
                    let after = entries@;
                    assert forall|a: int, b: int| 0 <= a < b < after.len() implies (
                    #[trigger] after[a]).0@ != (#[trigger] after[b]).0@ by {
                        let x = if a < i {
                            a
                        } else {
                            a + 1
                        };
                        let y = if b < i {
                            b
                        } else {
                            b + 1
                        };
                        assert(after[a] == before[x] && after[b] == before[y]);
                    }
                    lemma_pairs(after);
                    let goal = seen.remove(key@);
                    assert(pairs_map(after) =~= goal) by {
                        assert forall|k: Seq<char>| pairs_map(after).dom().contains(k)
                            <==> goal.dom().contains(k) by {
                            if pairs_map(after).dom().contains(k) {
                                let a = choose|a: int|
                                    0 <= a < after.len() && (#[trigger] after[a]).0@ == k;
                                let x = if a < i {
                                    a
                                } else {
                                    a + 1
                                };
                                assert(after[a] == before[x]);
                                assert(before[x].0@ != before[i as int].0@);
                            }
                            if goal.dom().contains(k) {
                                let x = choose|x: int|
                                    0 <= x < before.len() && (#[trigger] before[x]).0@ == k;
                                let a = if x < i {
                                    x
                                } else {
                                    x - 1
                                };
                                assert(after[a] == before[x]);
                            }
                        }
                        assert forall|k: Seq<char>| pairs_map(after).dom().contains(k) implies (
                        #[trigger] pairs_map(after)[k]) == goal[k] by {
                            let a = choose|a: int|
                                0 <= a < after.len() && (#[trigger] after[a]).0@ == k;
                            let x = if a < i {
                                a
                            } else {
                                a + 1
                            };
                            assert(after[a] == before[x]);
                        }
                    }
                }
                *self = Drafts { entries };
            },
            None => {
                proof {
                    assert(!seen.dom().contains(key@));
                    assert(seen.remove(key@) =~= seen);
                }
            },
        }
    }

    /// Sets the draft under `key`.
    pub fn insert(&mut self, key: String, text: String)
        ensures
            final(self)@ == old(self)@.insert(key@, text@),
    {
        let ghost seen = self@;
        let ghost (k, t) = (key@, text@);
        self.remove(key.as_str());
        proof {
            use_type_invariant(&*self);
            lemma_pairs(self.entries@);
        }
        let ghost before = self.entries@;
        let mut entries: Vec<(String, String)> = Vec::new();
        std::mem::swap(&mut entries, &mut self.entries);
        entries.push((key, text));
        proof {
            let after = entries@;
            assert forall|a: int, b: int| 0 <= a < b < after.len() implies (#[trigger] after[a]).0@
                != (#[trigger] after[b]).0@ by {
                assert(after[a] == before[a]);
                if b < before.len() {
                    assert(after[b] == before[b]);
                } else {
                    assert(pairs_map(before).dom().contains(before[a].0@));
                }
            }
            assert(after.drop_last() =~= before);
            assert(pairs_map(after) =~= seen.insert(k, t));
        }
        *self = Drafts { entries };
    }
}

/// A set of texts, each once.
#[derive(Debug)]
pub struct Names {
    entries: Vec<String>,
}

impl Names {
    /// The texts of the set.
    pub closed spec fn view(&self) -> Set<Seq<char>> {
        Set::new(
            |name: Seq<char>|
                exists|i: int| 0 <= i < self.entries@.len() && (#[trigger] self.entries@[i])@
                    == name,
        )
    }

    /// The empty set.
    pub fn new() -> (r: Names)
        ensures
            r@ == Set::<Seq<char>>::empty(),
    {
        let r = Names { entries: Vec::new() };
        assert(r@ =~= Set::<Seq<char>>::empty());
        r
    }

    /// Whether `name` is in the set.
    pub fn contains(&self, name: &str) -> (r: bool)
        ensures
            r == self@.contains(name@),
    {
        for i in 0..self.entries.len()
            invariant
                forall|j: int| 0 <= j < i ==> (#[trigger] self.entries@[j])@ != name@,
        {
            if same_text(self.entries[i].as_str(), name) {
                return true;
            }
        }
        false
    }

    /// Puts `name` into the set.
    pub fn insert(&mut self, name: String)
        ensures
            final(self)@ == old(self)@.insert(name@),
    {
        let ghost before = self.entries@;
        let ghost seen = self@;
        let ghost new = name@;
        if !self.contains(name.as_str()) {
            self.entries.push(name);
            proof {
                assert forall|n: Seq<char>| self@.contains(n) <==> seen.insert(new).contains(n) by {
                    if n == new {
                        assert(self.entries@[before.len() as int]@ == n);
                    }
                    if seen.contains(n) {
                        let i = choose|i: int| 0 <= i < before.len() && (#[trigger] before[i])@ == n;
                        assert(self.entries@[i]@ == n);
                    }
                    if self@.contains(n) && n != new {
                        let i = choose|i: int|
                            0 <= i < self.entries@.len() && (#[trigger] self.entries@[i])@ == n;
                        assert(before[i]@ == n);
                    }
                }
            }
        }
        assert(self@ =~= seen.insert(new));
    }

    /// Takes every text of this set out of `drafts`.
    pub(crate) fn remove_from(&self, drafts: &mut Drafts)
        ensures
            final(drafts)@ == old(drafts)@.remove_keys(self@),
    {
        let ghost before = drafts@;
        for i in 0..self.entries.len()
            invariant
                forall|k: Seq<char>| #[trigger]
                    drafts@.dom().contains(k) <==> before.dom().contains(k) && forall|j: int|
                        0 <= j < i ==> (#[trigger] self.entries@[j])@ != k,
                forall|k: Seq<char>|
                    drafts@.dom().contains(k) ==> #[trigger] drafts@[k] == before[k],
        {
            drafts.remove(self.entries[i].as_str());
        }
        assert(drafts@ =~= before.remove_keys(self@));
    }
}

} // verus!
