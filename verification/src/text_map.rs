//! Counters by name, and lists of named entries.

use vstd::prelude::*;

use crate::text::same;

verus! {

/// Named entries of which no two have the same name: a list that stands for a
/// map.
pub open spec fn distinct_names<T>(entries: Seq<(String, T)>) -> bool {
    forall|i: int, j: int|
        0 <= i < j < entries.len() ==> (#[trigger] entries[i]).0@ != (#[trigger] entries[j]).0@
}

/// A map from names to counters; no name occurs twice.
#[derive(Debug)]
pub struct TextMap {
    names: Vec<String>,
    counters: Vec<u64>,
}

/// The map behind names and counters that stand side by side.
pub open spec fn paired(names: Seq<Seq<char>>, counters: Seq<u64>) -> Map<Seq<char>, u64> {
    Map::new(|name: Seq<char>| names.contains(name), |name: Seq<char>| counters[names.index_of(name)])
}

impl View for TextMap {
    type V = Map<Seq<char>, u64>;

    closed spec fn view(&self) -> Map<Seq<char>, u64> {
        paired(self.names.deep_view(), self.counters@)
    }
}

proof fn lemma_lookup(names: Seq<Seq<char>>, counters: Seq<u64>, at: int)
    requires
        names.no_duplicates(),
        names.len() == counters.len(),
        0 <= at < names.len(),
    ensures
        paired(names, counters).contains_key(names[at]),
        paired(names, counters)[names[at]] == counters[at],
{
    assert(names.contains(names[at]));
    assert(names.index_of(names[at]) == at);
}

impl TextMap {
    #[verifier::type_invariant]
    spec fn well_formed(self) -> bool {
        &&& self.names.deep_view().no_duplicates()
        &&& self.names@.len() == self.counters@.len()
    }

    pub fn new() -> (result: Self)
        ensures
            result@ == Map::<Seq<char>, u64>::empty(),
    {
        let names: Vec<String> = Vec::new();
        let counters: Vec<u64> = Vec::new();
        assert(paired(names.deep_view(), counters@) =~= Map::<Seq<char>, u64>::empty());
        TextMap { names, counters }
    }

    fn position(&self, name: &str) -> (result: Option<usize>)
        ensures
            match result {
                Some(at) => at < self.names@.len() && self.names.deep_view()[at as int] == name@,
                None => !self.names.deep_view().contains(name@),
            },
    {
        let mut i: usize = 0;
        while i < self.names.len()
            invariant
                i <= self.names@.len(),
                forall|k: int| 0 <= k < i ==> #[trigger] self.names.deep_view()[k] != name@,
            decreases self.names@.len() - i,
        {
            assert(self.names.deep_view()[i as int] == self.names@[i as int]@);
            if same(self.names[i].as_str(), name) {
                return Some(i);
            }
            i = i + 1;
        }
        None
    }

    /// The counter of a name.
    pub fn get(&self, name: &str) -> (result: Option<u64>)
        ensures
            result == (if self@.contains_key(name@) {
                Some(self@[name@])
            } else {
                None
            }),
    {
        proof {
            use_type_invariant(self);
        }
        match self.position(name) {
            Some(at) => {
                proof {
                    lemma_lookup(self.names.deep_view(), self.counters@, at as int);
                }
                Some(self.counters[at])
            },
            None => None,
        }
    }

    /// Gives a name its counter, in place of the one it may have had.
    pub fn insert(&mut self, name: &str, counter: u64)
        ensures
            final(self)@ == old(self)@.insert(name@, counter),
    {
        proof {
            use_type_invariant(&*self);
        }
        let found: Option<usize> = self.position(name);
        let mut whole: TextMap = TextMap::new();
        std::mem::swap(&mut whole, self);
        let mut names: Vec<String> = whole.names;
        let mut counters: Vec<u64> = whole.counters;
        let ghost before = names.deep_view();
        let ghost before_counters = counters@;
        match found {
            Some(at) => {
                counters.set(at, counter);
            },
            None => {
                names.push(String::from_str(name));
                counters.push(counter);
            },
        }
        proof {
            let after = names.deep_view();
            if found is Some {
                assert(after =~= before);
            } else {
                assert(after =~= before.push(name@));
                assert(after.no_duplicates());
            }
            assert forall|key: Seq<char>| #[trigger] after.contains(key) == (before.contains(key)
                || key == name@) by {
                if found is None {
                    if before.contains(key) {
                        assert(after[before.index_of(key)] == key);
                    }
                    if key == name@ {
                        assert(after[before.len() as int] == key);
                    }
                    if after.contains(key) && key != name@ {
                        let at = after.index_of(key);
                        assert(before[at] == key);
                    }
                } else if key == name@ {
                    assert(before[found->0 as int] == key);
                }
            }
            assert forall|key: Seq<char>| #[trigger] after.contains(key) implies paired(
                after,
                counters@,
            )[key] == paired(before, before_counters).insert(name@, counter)[key] by {
                let at = after.index_of(key);
                lemma_lookup(after, counters@, at);
                if key == name@ {
                    if found is Some {
                        assert(before[found->0 as int] == before[at]);
                    } else {
                        assert(after[before.len() as int] == after[at]);
                    }
                } else {
                    lemma_lookup(before, before_counters, at);
                }
            }
            assert(paired(after, counters@) =~= paired(before, before_counters).insert(
                name@,
                counter,
            ));
        }
        *self = TextMap { names, counters };
    }

    /// Removes a name.
    pub fn remove(&mut self, name: &str)
        ensures
            final(self)@ == old(self)@.remove(name@),
    {
        proof {
            use_type_invariant(&*self);
        }
        let found: Option<usize> = self.position(name);
        let mut whole: TextMap = TextMap::new();
        std::mem::swap(&mut whole, self);
        let mut names: Vec<String> = whole.names;
        let mut counters: Vec<u64> = whole.counters;
        let ghost before = names.deep_view();
        let ghost before_counters = counters@;
        if let Some(at) = found {
            let _name: String = names.remove(at);
            let _counter: u64 = counters.remove(at);
        }
        proof {
            let after = names.deep_view();
            if found is Some {
                let at = found->0 as int;
                assert(after =~= before.remove(at));
                assert(after.no_duplicates()) by {
                    assert forall|i: int, j: int|
                        0 <= i < after.len() && 0 <= j < after.len() && i != j implies after[i]
                        != after[j] by {
                        let old_i = if i < at {
                            i
                        } else {
                            i + 1
                        };
                        let old_j = if j < at {
                            j
                        } else {
                            j + 1
                        };
                        assert(after[i] == before[old_i] && after[j] == before[old_j]);
                    }
                }
                assert forall|key: Seq<char>| #[trigger] after.contains(key) == (before.contains(
                    key,
                ) && key != name@) by {
                    if after.contains(key) {
                        let i = after.index_of(key);
                        let old_i = if i < at {
                            i
                        } else {
                            i + 1
                        };
                        assert(before[old_i] == key && old_i != at);
                    }
                    if before.contains(key) && key != name@ {
                        let i = before.index_of(key);
                        let new_i = if i < at {
                            i
                        } else {
                            i - 1
                        };
                        assert(after[new_i] == key);
                    }
                }
                assert forall|key: Seq<char>| #[trigger] after.contains(key) implies paired(
                    after,
                    counters@,
                )[key] == paired(before, before_counters)[key] by {
                    let i = after.index_of(key);
                    let old_i = if i < at {
                        i
                    } else {
                        i + 1
                    };
                    lemma_lookup(after, counters@, i);
                    lemma_lookup(before, before_counters, old_i);
                }
            }
            assert(paired(after, counters@) =~= paired(before, before_counters).remove(name@));
        }
        *self = TextMap { names, counters };
    }
}

} // verus!
