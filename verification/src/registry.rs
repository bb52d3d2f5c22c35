//! The registries backing type resolution: finite maps from fully-qualified
//! names to owned values, kept in insertion order. They are populated during
//! the registration pass and read during generation; the generation pass of
//! one unit works on its own fork, so a plain sequential map suffices.

use vstd::prelude::*;
use crate::descriptor::DescriptorProto;
use crate::strutil::clone_string_vec;
use crate::strutil::str_eq;

verus! {

/// A finite map from strings to values of type `T`, in insertion order, with
/// unique keys.
pub struct StrMap<T: DeepView> {
    entries: Vec<(String, T)>,
}

impl<T: DeepView> View for StrMap<T> {
    type V = Seq<(Seq<char>, T::V)>;

    closed spec fn view(&self) -> Seq<(Seq<char>, T::V)> {
        self.entries@.map_values(|p: (String, T)| (p.0@, p.1.deep_view()))
    }
}

/// The first value bound to `k` in the entry sequence, if any.
pub open spec fn lookup<T>(s: Seq<(Seq<char>, T)>, k: Seq<char>) -> Option<T>
    decreases s.len(),
{
    if s.len() == 0 {
        None
    } else if s[0].0 == k {
        Some(s[0].1)
    } else {
        lookup(s.drop_first(), k)
    }
}

/// The keys of an entry sequence, in order.
pub open spec fn keys_of<T>(s: Seq<(Seq<char>, T)>) -> Seq<Seq<char>> {
    s.map_values(|p: (Seq<char>, T)| p.0)
}

/// Well-formedness: no key occurs twice.
pub open spec fn unique_keys<T>(s: Seq<(Seq<char>, T)>) -> bool {
    forall|i: int, j: int| 0 <= i < j < s.len() ==> s[i].0 != s[j].0
}

/// What binding `k` to `v` does to an entry sequence: `k` maps to `v`, every
/// other key keeps its binding, the key order gains `k` at the end exactly
/// when it was absent, and key uniqueness is preserved.
pub open spec fn inserted<T>(
    old_s: Seq<(Seq<char>, T)>,
    new_s: Seq<(Seq<char>, T)>,
    k: Seq<char>,
    v: T,
) -> bool {
    &&& lookup(new_s, k) == Some(v)
    &&& forall|k2: Seq<char>| k2 != k ==> lookup(new_s, k2) == lookup(old_s, k2)
    &&& keys_of(new_s) == if lookup(old_s, k) is Some {
        keys_of(old_s)
    } else {
        keys_of(old_s).push(k)
    }
    &&& (unique_keys(old_s) ==> unique_keys(new_s))
}

/// When position `i` holds the first entry whose key is `k`, the lookup finds
/// exactly that entry.
pub proof fn lemma_lookup_at<T>(s: Seq<(Seq<char>, T)>, k: Seq<char>, i: int)
    requires
        0 <= i < s.len(),
        s[i].0 == k,
        forall|j: int| 0 <= j < i ==> s[j].0 != k,
    ensures
        lookup(s, k) == Some(s[i].1),
    decreases i,
{
    if i > 0 {
        lemma_lookup_at(s.drop_first(), k, i - 1);
    }
}

/// When no entry has key `k`, the lookup finds nothing.
pub proof fn lemma_lookup_none<T>(s: Seq<(Seq<char>, T)>, k: Seq<char>)
    requires
        forall|j: int| 0 <= j < s.len() ==> s[j].0 != k,
    ensures
        lookup(s, k) is None,
    decreases s.len(),
{
    if s.len() > 0 {
        lemma_lookup_none(s.drop_first(), k);
    }
}

/// Appending an entry with a fresh key binds that key and leaves every other
/// key's binding as it was.
pub proof fn lemma_lookup_push<T>(s: Seq<(Seq<char>, T)>, k: Seq<char>, v: T, k2: Seq<char>)
    ensures
        lookup(s.push((k, v)), k2) == if lookup(s, k2) is Some {
            lookup(s, k2)
        } else if k2 == k {
            Some(v)
        } else {
            None
        },
    decreases s.len(),
{
    if s.len() == 0 {
        assert(s.push((k, v)).drop_first() =~= Seq::<(Seq<char>, T)>::empty());
    } else {
        assert(s.push((k, v)).drop_first() =~= s.drop_first().push((k, v)));
        lemma_lookup_push(s.drop_first(), k, v, k2);
    }
}

/// Replacing the first entry whose key is `k` rebinds `k` and leaves every
/// other key's binding as it was.
pub proof fn lemma_lookup_update<T>(
    s: Seq<(Seq<char>, T)>,
    i: int,
    k: Seq<char>,
    v: T,
    k2: Seq<char>,
)
    requires
        0 <= i < s.len(),
        s[i].0 == k,
        forall|j: int| 0 <= j < i ==> s[j].0 != k,
    ensures
        lookup(s.update(i, (k, v)), k2) == if k2 == k {
            Some(v)
        } else {
            lookup(s, k2)
        },
    decreases i,
{
    let s2 = s.update(i, (k, v));
    if i == 0 {
        assert(s2.drop_first() =~= s.drop_first());
    } else {
        assert(s2[0] == s[0]);
        assert(s2.drop_first() =~= s.drop_first().update(i - 1, (k, v)));
        lemma_lookup_update(s.drop_first(), i - 1, k, v, k2);
    }
}

impl<T: DeepView> StrMap<T> {
    /// An empty map.
    pub fn new() -> (r: Self)
        ensures
            r@ == Seq::<(Seq<char>, T::V)>::empty(),
            unique_keys(r@),
    {
        let r = StrMap { entries: Vec::new() };
        proof {
            assert(r@ =~= Seq::<(Seq<char>, T::V)>::empty());
        }
        r
    }

    /// The number of entries.
    pub fn len(&self) -> (r: usize)
        ensures
            r == self@.len(),
    {
        self.entries.len()
    }

    /// The key of the entry at position `i`.
    pub fn key_at(&self, i: usize) -> (r: &str)
        requires
            i < self@.len(),
        ensures
            r@ == self@[i as int].0,
    {
        self.entries[i].0.as_str()
    }

    /// The value of the entry at position `i`.
    pub fn value_at(&self, i: usize) -> (r: &T)
        requires
            i < self@.len(),
        ensures
            r.deep_view() == self@[i as int].1,
    {
        &self.entries[i].1
    }

    /// The value bound to `k`, if any.
    pub fn get(&self, k: &str) -> (r: Option<&T>)
        ensures
            match r {
                Some(v) => lookup(self@, k@) == Some(v.deep_view()),
                None => lookup(self@, k@) is None,
            },
    {
        let mut i: usize = 0;
        while i < self.entries.len()
            invariant
                i <= self.entries@.len(),
                forall|j: int| 0 <= j < i ==> self@[j].0 != k@,
            decreases self.entries@.len() - i,
        {
            let pair = &self.entries[i];
            if str_eq(pair.0.as_str(), k) {
                proof {
                    lemma_lookup_at(self@, k@, i as int);
                }
                return Some(&pair.1);
            }
            i = i + 1;
        }
        proof {
            lemma_lookup_none(self@, k@);
        }
        None
    }

    /// Whether some entry has key `k`.
    pub fn contains_key(&self, k: &str) -> (r: bool)
        ensures
            r == (lookup(self@, k@) is Some),
    {
        self.get(k).is_some()
    }

    /// Bind `k` to `v`: replace the binding when `k` is present, append a new
    /// entry otherwise.
    pub fn insert(&mut self, k: String, v: T)
        ensures
            inserted(old(self)@, final(self)@, k@, v.deep_view()),
    {
        let ghost old_view = self@;
        let mut i: usize = 0;
        while i < self.entries.len()
            invariant
                i <= self.entries@.len(),
                self@ == old_view,
                old_view == old(self)@,
                forall|j: int| 0 <= j < i ==> self@[j].0 != k@,
            decreases self.entries@.len() - i,
        {
            let pair = &self.entries[i];
            if str_eq(pair.0.as_str(), k.as_str()) {
                let ghost gk = k@;
                let ghost gv = v.deep_view();
                proof {
                    lemma_lookup_at(old_view, gk, i as int);
                }
                self.entries.set(i, (k, v));
                proof {
                    assert(self@ =~= old_view.update(i as int, (gk, gv)));
                    assert forall|k2: Seq<char>| k2 != gk implies lookup(self@, k2) == lookup(
                        old_view,
                        k2,
                    ) by {
                        lemma_lookup_update(old_view, i as int, gk, gv, k2);
                    }
                    lemma_lookup_update(old_view, i as int, gk, gv, gk);
                    assert(keys_of(self@) =~= keys_of(old_view));
                }
                return ;
            }
            i = i + 1;
        }
        let ghost gk = k@;
        let ghost gv = v.deep_view();
        proof {
            lemma_lookup_none(old_view, gk);
            assert forall|k2: Seq<char>| true implies lookup(old_view.push((gk, gv)), k2) == if (
            lookup(old_view, k2) is Some) {
                lookup(old_view, k2)
            } else if k2 == gk {
                Some(gv)
            } else {
                None
            } by {
                lemma_lookup_push(old_view, gk, gv, k2);
            }
        }
        self.entries.push((k, v));
        proof {
            assert(self@ =~= old_view.push((gk, gv)));
            assert(keys_of(self@) =~= keys_of(old_view).push(gk));
            if unique_keys(old_view) {
                assert forall|a: int, b: int| 0 <= a < b < self@.len() implies self@[a].0
                    != self@[b].0 by {
                    if b == self@.len() - 1 {
                        assert(self@[a].0 == old_view[a].0);
                    }
                }
            }
        }
    }

    /// Remove every entry.
    pub fn clear(&mut self)
        ensures
            final(self)@ == Seq::<(Seq<char>, T::V)>::empty(),
            unique_keys(final(self)@),
    {
        self.entries.clear();
        proof {
            assert(self@ =~= Seq::<(Seq<char>, T::V)>::empty());
        }
    }
}

impl StrMap<String> {
    /// A copy with the same entries.
    pub fn duplicate(&self) -> (r: Self)
        ensures
            r@ == self@,
    {
        let mut entries: Vec<(String, String)> = Vec::new();
        let mut i: usize = 0;
        while i < self.entries.len()
            invariant
                i <= self.entries@.len(),
                entries@.len() == i,
                forall|j: int| 0 <= j < i ==> entries@[j].0@ == self.entries@[j].0@
                    && entries@[j].1@ == self.entries@[j].1@,
            decreases self.entries@.len() - i,
        {
            let pair = &self.entries[i];
            entries.push((pair.0.clone(), pair.1.clone()));
            i = i + 1;
        }
        let r = StrMap { entries };
        proof {
            assert(r@ =~= self@);
        }
        r
    }
}

impl StrMap<Vec<String>> {
    /// A copy with the same entries.
    pub fn duplicate(&self) -> (r: Self)
        ensures
            r@ == self@,
    {
        let mut entries: Vec<(String, Vec<String>)> = Vec::new();
        let mut i: usize = 0;
        while i < self.entries.len()
            invariant
                i <= self.entries@.len(),
                entries@.len() == i,
                forall|j: int| 0 <= j < i ==> entries@[j].0@ == self.entries@[j].0@
                    && entries@[j].1.deep_view() == self.entries@[j].1.deep_view(),
            decreases self.entries@.len() - i,
        {
            let pair = &self.entries[i];
            entries.push((pair.0.clone(), clone_string_vec(&pair.1)));
            i = i + 1;
        }
        let r = StrMap { entries };
        proof {
            assert(r@ =~= self@);
        }
        r
    }
}

impl StrMap<i32> {
    /// A copy with the same entries.
    pub fn duplicate(&self) -> (r: Self)
        ensures
            r@ == self@,
    {
        let mut entries: Vec<(String, i32)> = Vec::new();
        let mut i: usize = 0;
        while i < self.entries.len()
            invariant
                i <= self.entries@.len(),
                entries@.len() == i,
                forall|j: int| 0 <= j < i ==> entries@[j].0@ == self.entries@[j].0@
                    && entries@[j].1 == self.entries@[j].1,
            decreases self.entries@.len() - i,
        {
            let pair = &self.entries[i];
            entries.push((pair.0.clone(), pair.1));
            i = i + 1;
        }
        let r = StrMap { entries };
        proof {
            assert(r@ =~= self@);
        }
        r
    }
}

impl StrMap<DescriptorProto> {
    /// A copy with the same entries.
    pub fn duplicate(&self) -> (r: Self)
        ensures
            r@ == self@,
    {
        let mut entries: Vec<(String, DescriptorProto)> = Vec::new();
        let mut i: usize = 0;
        while i < self.entries.len()
            invariant
                i <= self.entries@.len(),
                entries@.len() == i,
                forall|j: int| 0 <= j < i ==> entries@[j].0@ == self.entries@[j].0@
                    && entries@[j].1@ == self.entries@[j].1@,
            decreases self.entries@.len() - i,
        {
            let pair = &self.entries[i];
            entries.push((pair.0.clone(), pair.1.clone()));
            i = i + 1;
        }
        let r = StrMap { entries };
        proof {
            assert(r@ =~= self@);
        }
        r
    }
}

} // verus!
