//! HTTP-shaped helpers: a header map with case-insensitive keys, and path
//! prefix stripping.

use vstd::prelude::*;
use vstd::map::*;

use crate::text::{lower_of, str_eq, to_lowercase};

verus! {

/// The map an entry list denotes: entries apply in order, so a later entry
/// with the same key wins.
pub open spec fn entries_map(s: Seq<(String, String)>) -> Map<Seq<char>, Seq<char>>
    decreases s.len(),
{
    if s.len() == 0 {
        Map::empty()
    } else {
        entries_map(s.drop_last()).insert(s.last().0@, s.last().1@)
    }
}

/// Whether the entry keys are pairwise distinct.
pub open spec fn unique_keys(s: Seq<(String, String)>) -> bool {
    forall|i: int, j: int|
        0 <= i < j < s.len() ==> (#[trigger] s[i]).0@ != (#[trigger] s[j]).0@
}

/// Every entry of a unique-keyed list is in its map.
pub proof fn lemma_entries_map_index(s: Seq<(String, String)>, i: int)
    requires
        unique_keys(s),
        0 <= i < s.len(),
    ensures
        entries_map(s).contains_key(s[i].0@),
        entries_map(s)[s[i].0@] == s[i].1@,
    decreases s.len(),
{
    if i < s.len() - 1 {
        assert(unique_keys(s.drop_last()));
        assert(s.drop_last()[i] == s[i]);
        lemma_entries_map_index(s.drop_last(), i);
        assert(s[i].0@ != s.last().0@);
    }
}

/// A key on no entry is not in the map.
pub proof fn lemma_entries_map_absent(s: Seq<(String, String)>, k: Seq<char>)
    requires
        forall|i: int| 0 <= i < s.len() ==> (#[trigger] s[i]).0@ != k,
    ensures
        !entries_map(s).contains_key(k),
    decreases s.len(),
{
    if s.len() > 0 {
        assert(forall|i: int|
            0 <= i < s.drop_last().len() ==> (#[trigger] s.drop_last()[i]).0@ != k);
        lemma_entries_map_absent(s.drop_last(), k);
        assert(s.last() == s[s.len() - 1]);
    }
}

/// Replacing the entry at a key with a view-equal key updates the map at
/// that key.
pub proof fn lemma_entries_map_update(s: Seq<(String, String)>, i: int, e: (String, String))
    requires
        unique_keys(s),
        0 <= i < s.len(),
        e.0@ == s[i].0@,
    ensures
        entries_map(s.update(i, e)) == entries_map(s).insert(e.0@, e.1@),
        unique_keys(s.update(i, e)),
    decreases s.len(),
{
    let su = s.update(i, e);
    assert forall|a: int, b: int| 0 <= a < b < su.len() implies (#[trigger] su[a]).0@ != (
    #[trigger] su[b]).0@ by {
        assert(s[a].0@ != s[b].0@);
    }
    if i == s.len() - 1 {
        assert(su.drop_last() =~= s.drop_last());
        assert(entries_map(su) == entries_map(s.drop_last()).insert(e.0@, e.1@));
        assert(entries_map(s.drop_last()).insert(s.last().0@, s.last().1@).insert(e.0@, e.1@)
            =~= entries_map(s.drop_last()).insert(e.0@, e.1@));
    } else {
        assert(unique_keys(s.drop_last()));
        assert(s.drop_last()[i] == s[i]);
        lemma_entries_map_update(s.drop_last(), i, e);
        assert(su.drop_last() =~= s.drop_last().update(i, e));
        assert(s[i].0@ != s.last().0@);
        assert(entries_map(s.drop_last()).insert(e.0@, e.1@).insert(s.last().0@, s.last().1@)
            =~= entries_map(s.drop_last()).insert(s.last().0@, s.last().1@).insert(e.0@, e.1@));
    }
}

/// Removing the entry at a key removes the key from the map.
pub proof fn lemma_entries_map_remove(s: Seq<(String, String)>, i: int)
    requires
        unique_keys(s),
        0 <= i < s.len(),
    ensures
        entries_map(s.remove(i)) == entries_map(s).remove(s[i].0@),
        unique_keys(s.remove(i)),
    decreases s.len(),
{
    let sr = s.remove(i);
    assert forall|a: int, b: int| 0 <= a < b < sr.len() implies (#[trigger] sr[a]).0@ != (
    #[trigger] sr[b]).0@ by {
        let a0 = if a < i {
            a
        } else {
            a + 1
        };
        let b0 = if b < i {
            b
        } else {
            b + 1
        };
        assert(sr[a] == s[a0] && sr[b] == s[b0]);
        assert(s[a0].0@ != s[b0].0@);
    }
    if i == s.len() - 1 {
        assert(sr =~= s.drop_last());
        assert(forall|j: int|
            0 <= j < s.drop_last().len() ==> (#[trigger] s.drop_last()[j]).0@ != s[i].0@);
        lemma_entries_map_absent(s.drop_last(), s[i].0@);
        assert(entries_map(s.drop_last()).insert(s.last().0@, s.last().1@).remove(s[i].0@)
            =~= entries_map(s.drop_last()));
    } else {
        assert(unique_keys(s.drop_last()));
        assert(s.drop_last()[i] == s[i]);
        lemma_entries_map_remove(s.drop_last(), i);
        assert(sr.drop_last() =~= s.drop_last().remove(i));
        assert(sr.last() == s.last());
        assert(s[i].0@ != s.last().0@);
        assert(entries_map(s.drop_last()).remove(s[i].0@).insert(s.last().0@, s.last().1@)
            =~= entries_map(s.drop_last()).insert(s.last().0@, s.last().1@).remove(s[i].0@));
    }
}

/// A header map. Keys are stored and looked up lowercased, so lookups are
/// case-insensitive; entries set directly through `from_map` keep their
/// casing, as the caller supplied it.
#[derive(Clone, Debug, PartialEq)]
pub struct Headers {
    inner: Vec<(String, String)>,
}

impl View for Headers {
    type V = Map<Seq<char>, Seq<char>>;

    closed spec fn view(&self) -> Map<Seq<char>, Seq<char>> {
        entries_map(self.inner@)
    }
}

impl Headers {
    /// The internal shape every operation preserves: entry keys are
    /// pairwise distinct.
    pub closed spec fn wf(&self) -> bool {
        unique_keys(self.inner@)
    }

    /// An empty header map.
    pub fn new() -> (r: Headers)
        ensures
            r.wf(),
            r@ == Map::<Seq<char>, Seq<char>>::empty(),
    {
        Headers { inner: Vec::new() }
    }

    /// Stores an entry under the key exactly as given, replacing any entry
    /// with the same key.
    #[verifier::loop_isolation(false)]
    fn insert_entry(&mut self, key: String, value: String)
        requires
            old(self).wf(),
        ensures
            final(self).wf(),
            final(self)@ == old(self)@.insert(key@, value@),
    {
        let ghost s0 = self.inner@;
        let mut i: usize = 0;
        while i < self.inner.len()
            invariant
                i <= self.inner@.len(),
                self.inner@ == s0,
                forall|j: int| 0 <= j < i ==> (#[trigger] s0[j]).0@ != key@,
            decreases self.inner@.len() - i,
        {
            if str_eq(self.inner[i].0.as_str(), key.as_str()) {
                proof {
                    lemma_entries_map_update(s0, i as int, (key, value));
                }
                self.inner.set(i, (key, value));
                return ;
            }
            i = i + 1;
        }
        proof {
            assert(unique_keys(s0.push((key, value)))) by {
                assert(forall|a: int, b: int|
                    0 <= a < b < s0.push((key, value)).len() && b < s0.len() ==> (
                    #[trigger] s0.push((key, value))[a]).0@ != (#[trigger] s0.push(
                        (key, value),
                    )[b]).0@);
            }
            assert(s0.push((key, value)).drop_last() =~= s0);
        }
        self.inner.push((key, value));
    }

    /// Builds a header map from entries as given, later entries winning.
    #[verifier::loop_isolation(false)]
    pub fn from_map(map: Vec<(String, String)>) -> (r: Headers)
        ensures
            r.wf(),
            r@ == entries_map(map@),
    {
        let mut out = Headers::new();
        let mut i: usize = 0;
        proof {
            assert(entries_map(map@.take(0)) =~= Map::<Seq<char>, Seq<char>>::empty());
        }
        while i < map.len()
            invariant
                i <= map.len(),
                out.wf(),
                out@ == entries_map(map@.take(i as int)),
            decreases map.len() - i,
        {
            let entry = (map[i].0.clone(), map[i].1.clone());
            proof {
                assert(map@.take(i + 1).drop_last() =~= map@.take(i as int));
                assert(map@.take(i + 1).last() == map@[i as int]);
            }
            out.insert_entry(entry.0, entry.1);
            i = i + 1;
        }
        proof {
            assert(map@.take(map@.len() as int) =~= map@);
        }
        out
    }

    /// The map a lowercase-keyed entry list denotes, later entries winning.
    pub open spec fn lowered_entries_map(s: Seq<(String, String)>) -> Map<Seq<char>, Seq<char>>
        decreases s.len(),
    {
        if s.len() == 0 {
            Map::empty()
        } else {
            Self::lowered_entries_map(s.drop_last()).insert(lower_of(s.last().0@), s.last().1@)
        }
    }

    /// Builds a header map from entries whose keys are lowercased on the
    /// way in, later entries winning.
    #[verifier::loop_isolation(false)]
    pub fn from_vec(vec: Vec<(String, String)>) -> (r: Headers)
        ensures
            r.wf(),
            r@ == Self::lowered_entries_map(vec@),
    {
        let mut out = Headers::new();
        let mut i: usize = 0;
        proof {
            assert(Self::lowered_entries_map(vec@.take(0)) =~= Map::<
                Seq<char>,
                Seq<char>,
            >::empty());
        }
        while i < vec.len()
            invariant
                i <= vec.len(),
                out.wf(),
                out@ == Self::lowered_entries_map(vec@.take(i as int)),
            decreases vec.len() - i,
        {
            proof {
                assert(vec@.take(i + 1).drop_last() =~= vec@.take(i as int));
                assert(vec@.take(i + 1).last() == vec@[i as int]);
            }
            let key = to_lowercase(vec[i].0.as_str());
            out.insert_entry(key, vec[i].1.clone());
            i = i + 1;
        }
        proof {
            assert(vec@.take(vec@.len() as int) =~= vec@);
        }
        out
    }

    /// Looks a header up by its lowercased key.
    #[verifier::loop_isolation(false)]
    pub fn get(&self, key: &str) -> (r: Option<String>)
        requires
            self.wf(),
        ensures
            match r {
                Some(v) => self@.contains_key(lower_of(key@)) && v@ == self@[lower_of(key@)],
                None => !self@.contains_key(lower_of(key@)),
            },
    {
        let lowered = to_lowercase(key);
        let ghost s = self.inner@;
        let mut i: usize = 0;
        while i < self.inner.len()
            invariant
                i <= s.len(),
                self.inner@ == s,
                forall|j: int| 0 <= j < i ==> (#[trigger] s[j]).0@ != lower_of(key@),
            decreases s.len() - i,
        {
            if str_eq(self.inner[i].0.as_str(), lowered.as_str()) {
                proof {
                    lemma_entries_map_index(s, i as int);
                }
                return Some(self.inner[i].1.clone());
            }
            i = i + 1;
        }
        proof {
            lemma_entries_map_absent(s, lower_of(key@));
        }
        None
    }

    /// Stores a header under its lowercased key, replacing any previous
    /// value.
    pub fn insert(&mut self, key: String, value: String)
        requires
            old(self).wf(),
        ensures
            final(self).wf(),
            final(self)@ == old(self)@.insert(lower_of(key@), value@),
    {
        let lowered = to_lowercase(key.as_str());
        self.insert_entry(lowered, value);
    }

    /// Removes the header with the lowercased key, handing its value back.
    #[verifier::loop_isolation(false)]
    pub fn remove(&mut self, key: &str) -> (r: Option<String>)
        requires
            old(self).wf(),
        ensures
            final(self).wf(),
            final(self)@ == old(self)@.remove(lower_of(key@)),
            match r {
                Some(v) => old(self)@.contains_key(lower_of(key@)) && v@ == old(self)@[lower_of(
                    key@,
                )],
                None => !old(self)@.contains_key(lower_of(key@)),
            },
    {
        let lowered = to_lowercase(key);
        let ghost s = self.inner@;
        let mut i: usize = 0;
        while i < self.inner.len()
            invariant
                i <= s.len(),
                self.inner@ == s,
                forall|j: int| 0 <= j < i ==> (#[trigger] s[j]).0@ != lower_of(key@),
            decreases s.len() - i,
        {
            if str_eq(self.inner[i].0.as_str(), lowered.as_str()) {
                proof {
                    lemma_entries_map_index(s, i as int);
                    lemma_entries_map_remove(s, i as int);
                }
                let entry = self.inner.remove(i);
                return Some(entry.1);
            }
            i = i + 1;
        }
        proof {
            lemma_entries_map_absent(s, lower_of(key@));
            assert(entries_map(s).remove(lower_of(key@)) =~= entries_map(s));
        }
        None
    }

    /// Hands the entries out, consuming the map.
    pub fn into_entries(self) -> (r: Vec<(String, String)>)
        ensures
            entries_map(r@) == self@,
    {
        self.inner
    }
}

/// The text with one leading occurrence of a prefix removed, when present.
pub open spec fn spec_strip_leading(path: Seq<char>, leading: Seq<char>) -> Seq<char> {
    if leading.len() <= path.len() && path.take(leading.len() as int) == leading {
        path.skip(leading.len() as int)
    } else {
        path
    }
}

/// Strips one leading occurrence of the prefix, if present.
#[verifier::loop_isolation(false)]
pub fn strip_leading(path: &str, leading: &str) -> (r: String)
    ensures
        r@ == spec_strip_leading(path@, leading@),
{
    let plen = path.unicode_len();
    let llen = leading.unicode_len();
    if llen > plen {
        return path.to_owned();
    }
    let mut i: usize = 0;
    while i < llen
        invariant
            i <= llen,
            llen <= plen,
            forall|j: int| 0 <= j < i ==> path@[j] == leading@[j],
        decreases llen - i,
    {
        if path.get_char(i) != leading.get_char(i) {
            proof {
                assert(path@.take(leading@.len() as int)[i as int] != leading@[i as int]);
            }
            return path.to_owned();
        }
        i = i + 1;
    }
    proof {
        assert(path@.take(leading@.len() as int) =~= leading@);
    }
    let stripped = path.substring_char(llen, plen);
    stripped.to_owned()
}

/// Strips one leading slash, if present.
pub fn strip_leading_slash(path: &str) -> (r: String)
    ensures
        r@ == spec_strip_leading(path@, "/"@),
{
    strip_leading(path, "/")
}

} // verus!
