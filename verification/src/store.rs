//! The keyed table behind the Register Store and the macro recordings: an
//! association list from single-character names to values, each name bound at
//! most once, viewed as a mathematical map.

use vstd::prelude::*;

verus! {

/// No two entries of `s` share a name.
pub open spec fn distinct_keys<T>(s: Seq<(char, T)>) -> bool {
    forall|i: int, j: int|
        #![trigger s[i], s[j]]
        0 <= i < j < s.len() ==> s[i].0 != s[j].0
}

/// A table from single-character names to values. Writes replace, never
/// merge; at most one entry exists per name at any time.
#[derive(Debug)]
pub struct CharMap<T> {
    entries: Vec<(char, T)>,
}

impl<T: DeepView> CharMap<T> {
    /// The mathematical map an entry sequence denotes, over the deep views of
    /// its values.
    pub closed spec fn map_of(s: Seq<(char, T)>) -> Map<char, <T as DeepView>::V>
        decreases s.len(),
    {
        if s.len() == 0 {
            Map::empty()
        } else {
            Self::map_of(s.drop_last()).insert(s.last().0, s.last().1.deep_view())
        }
    }

    /// Each name is bound at most once.
    pub closed spec fn wf(&self) -> bool {
        distinct_keys(self.entries@)
    }

    proof fn lemma_contains(s: Seq<(char, T)>, name: char)
        ensures
            Self::map_of(s).contains_key(name) <==> exists|i: int|
                0 <= i < s.len() && (#[trigger] s[i]).0 == name,
        decreases s.len(),
    {
        if s.len() > 0 {
            Self::lemma_contains(s.drop_last(), name);
            if Self::map_of(s).contains_key(name) {
                if s.last().0 != name {
                    let i = choose|i: int|
                        0 <= i < s.drop_last().len() && (#[trigger] s.drop_last()[i]).0 == name;
                    assert(s[i].0 == name);
                }
            }
            if exists|i: int| 0 <= i < s.len() && (#[trigger] s[i]).0 == name {
                let i = choose|i: int| 0 <= i < s.len() && (#[trigger] s[i]).0 == name;
                if i < s.len() - 1 {
                    assert(s.drop_last()[i].0 == name);
                }
            }
        }
    }

    proof fn lemma_index(s: Seq<(char, T)>, i: int)
        requires
            distinct_keys(s),
            0 <= i < s.len(),
        ensures
            Self::map_of(s).contains_key(s[i].0),
            Self::map_of(s)[s[i].0] == s[i].1.deep_view(),
        decreases s.len(),
    {
        if i < s.len() - 1 {
            assert(distinct_keys(s.drop_last())) by {
                assert(forall|k: int, l: int|
                    0 <= k < l < s.drop_last().len() ==> (#[trigger] s.drop_last()[k]) == s[k]
                        && (#[trigger] s.drop_last()[l]) == s[l]);
            }
            Self::lemma_index(s.drop_last(), i);
            assert(s.drop_last()[i] == s[i]);
            assert(s[i].0 != s.last().0);
        }
    }

    proof fn lemma_remove(s: Seq<(char, T)>, i: int)
        requires
            distinct_keys(s),
            0 <= i < s.len(),
        ensures
            distinct_keys(s.remove(i)),
            Self::map_of(s.remove(i)) == Self::map_of(s).remove(s[i].0),
        decreases s.len(),
    {
        assert(distinct_keys(s.remove(i))) by {
            assert(forall|k: int|
                0 <= k < s.remove(i).len() ==> (#[trigger] s.remove(i)[k]) == if k < i {
                    s[k]
                } else {
                    s[k + 1]
                });
        }
        let name = s[i].0;
        if i == s.len() - 1 {
            assert(s.remove(i) =~= s.drop_last());
            Self::lemma_contains(s.drop_last(), name);
            assert(forall|k: int|
                0 <= k < s.drop_last().len() ==> (#[trigger] s.drop_last()[k]) == s[k]);
            assert(!Self::map_of(s.drop_last()).contains_key(name));
            assert(Self::map_of(s.remove(i)) =~= Self::map_of(s).remove(name));
        } else {
            assert(distinct_keys(s.drop_last())) by {
                assert(forall|k: int|
                    0 <= k < s.drop_last().len() ==> (#[trigger] s.drop_last()[k]) == s[k]);
            }
            Self::lemma_remove(s.drop_last(), i);
            assert(s.remove(i).drop_last() =~= s.drop_last().remove(i));
            assert(s.remove(i).last() == s.last());
            assert(name != s.last().0);
            assert(Self::map_of(s.remove(i)) == Self::map_of(s.drop_last().remove(i)).insert(
                s.last().0,
                s.last().1.deep_view(),
            ));
            assert(Self::map_of(s.remove(i)) =~= Self::map_of(s).remove(name));
        }
    }

    /// An empty table.
    pub fn new() -> (r: Self)
        ensures
            r.wf(),
            r@ == Map::<char, <T as DeepView>::V>::empty(),
    {
        CharMap { entries: Vec::new() }
    }

    fn find(&self, name: char) -> (r: Option<usize>)
        ensures
            match r {
                Some(i) => i < self.entries@.len() && self.entries@[i as int].0 == name,
                None => forall|i: int|
                    0 <= i < self.entries@.len() ==> (#[trigger] self.entries@[i]).0 != name,
            },
    {
        let mut i: usize = 0;
        while i < self.entries.len()
            invariant
                i <= self.entries@.len(),
                forall|j: int| 0 <= j < i ==> (#[trigger] self.entries@[j]).0 != name,
            decreases self.entries@.len() - i,
        {
            if self.entries[i].0 == name {
                return Some(i);
            }
            i += 1;
        }
        None
    }

    /// Pure lookup: the value stored at `name`, if any.
    pub fn get(&self, name: char) -> (r: Option<&T>)
        requires
            self.wf(),
        ensures
            match r {
                Some(v) => self@.contains_key(name) && v.deep_view() == self@[name],
                None => !self@.contains_key(name),
            },
    {
        proof {
            Self::lemma_contains(self.entries@, name);
        }
        match self.find(name) {
            Some(i) => {
                proof {
                    Self::lemma_index(self.entries@, i as int);
                }
                Some(&self.entries[i].1)
            },
            None => None,
        }
    }

    /// Replace the value at `name`, returning the previous one for chaining.
    pub fn set(&mut self, name: char, value: T) -> (prev: Option<T>)
        requires
            old(self).wf(),
        ensures
            final(self).wf(),
            final(self)@ == old(self)@.insert(name, value.deep_view()),
            match prev {
                Some(p) => old(self)@.contains_key(name) && p.deep_view() == old(self)@[name],
                None => !old(self)@.contains_key(name),
            },
    {
        proof {
            Self::lemma_contains(self.entries@, name);
        }
        match self.find(name) {
            Some(i) => {
                proof {
                    Self::lemma_index(self.entries@, i as int);
                    Self::lemma_remove(self.entries@, i as int);
                }
                let ghost s0 = self.entries@;
                let pair = self.entries.remove(i);
                self.entries.push((name, value));
                proof {
                    assert(self.entries@.drop_last() =~= s0.remove(i as int));
                    assert(forall|k: int|
                        0 <= k < s0.remove(i as int).len() ==> (#[trigger] s0.remove(i as int)[k]).0
                            != name);
                    assert(final(self)@ =~= old(self)@.insert(name, value.deep_view()));
                }
                Some(pair.1)
            },
            None => {
                self.entries.push((name, value));
                proof {
                    let ghost s1 = self.entries@;
                    assert(s1.drop_last() =~= old(self).entries@);
                    assert(final(self)@ =~= old(self)@.insert(name, value.deep_view()));
                }
                None
            },
        }
    }

    /// Remove the binding at `name`, returning what was stored there.
    pub fn remove(&mut self, name: char) -> (prev: Option<T>)
        requires
            old(self).wf(),
        ensures
            final(self).wf(),
            final(self)@ == old(self)@.remove(name),
            match prev {
                Some(p) => old(self)@.contains_key(name) && p.deep_view() == old(self)@[name],
                None => !old(self)@.contains_key(name),
            },
    {
        proof {
            Self::lemma_contains(self.entries@, name);
        }
        match self.find(name) {
            Some(i) => {
                proof {
                    Self::lemma_index(self.entries@, i as int);
                    Self::lemma_remove(self.entries@, i as int);
                }
                let pair = self.entries.remove(i);
                Some(pair.1)
            },
            None => {
                proof {
                    assert(final(self)@ =~= old(self)@.remove(name));
                }
                None
            },
        }
    }
}

impl<T: DeepView> View for CharMap<T> {
    type V = Map<char, <T as DeepView>::V>;

    closed spec fn view(&self) -> Map<char, <T as DeepView>::V> {
        CharMap::<T>::map_of(self.entries@)
    }
}

} // verus!
