//! The read-optimized tables that the registry and the compatibility table
//! are made of: one keyed by numeric IDs, one keyed by strings. Both keep
//! their entries in insertion order and replace in place on a key collision,
//! so that the last write wins.

use vstd::prelude::*;

verus! {

/// Whether no two entries of `s` share a key.
pub open spec fn unique_keys<V>(s: Seq<(u32, V)>) -> bool {
    forall|i: int, j: int| 0 <= i < j < s.len() ==> (#[trigger] s[i]).0 != (#[trigger] s[j]).0
}

/// The value under the first entry holding `k`, scanning from the front.
pub open spec fn alist_get<V>(s: Seq<(u32, V)>, k: u32) -> Option<V>
    decreases s.len(),
{
    if s.len() == 0 {
        None
    } else if s[0].0 == k {
        Some(s[0].1)
    } else {
        alist_get(s.drop_first(), k)
    }
}

/// Entries before `i` without the key do not change what is found.
pub proof fn lemma_alist_get_skip<V>(s: Seq<(u32, V)>, k: u32, i: int)
    requires
        0 <= i <= s.len(),
        forall|j: int| 0 <= j < i ==> (#[trigger] s[j]).0 != k,
    ensures
        alist_get(s, k) == alist_get(s.skip(i), k),
    decreases i,
{
    if i == 0 {
        assert(s.skip(0) =~= s);
    } else {
        lemma_alist_get_skip(s.drop_first(), k, i - 1);
        assert(s.drop_first().skip(i - 1) =~= s.skip(i));
    }
}

/// `s` with the value under `k` replaced in place, or appended when `k` is
/// absent.
pub open spec fn alist_update<V>(s: Seq<(u32, V)>, k: u32, v: V) -> Seq<(u32, V)>
    decreases s.len(),
{
    if s.len() == 0 {
        seq![(k, v)]
    } else if s[0].0 == k {
        seq![(k, v)] + s.drop_first()
    } else {
        seq![s[0]] + alist_update(s.drop_first(), k, v)
    }
}

/// Replacing at the first position holding `k` is what `alist_update` does.
proof fn lemma_alist_update_at<V>(s: Seq<(u32, V)>, k: u32, v: V, i: int)
    requires
        0 <= i < s.len(),
        s[i].0 == k,
        forall|j: int| 0 <= j < i ==> (#[trigger] s[j]).0 != k,
    ensures
        alist_update(s, k, v) =~= s.update(i, (k, v)),
    decreases i,
{
    if i == 0 {
        assert(alist_update(s, k, v) =~= s.update(0, (k, v)));
    } else {
        lemma_alist_update_at(s.drop_first(), k, v, i - 1);
        assert(alist_update(s, k, v) =~= s.update(i, (k, v)));
    }
}

/// Appending is what `alist_update` does when `k` is absent.
proof fn lemma_alist_update_missing<V>(s: Seq<(u32, V)>, k: u32, v: V)
    requires
        forall|j: int| 0 <= j < s.len() ==> (#[trigger] s[j]).0 != k,
    ensures
        alist_update(s, k, v) =~= s.push((k, v)),
    decreases s.len(),
{
    if s.len() > 0 {
        lemma_alist_update_missing(s.drop_first(), k, v);
        assert(alist_update(s, k, v) =~= s.push((k, v)));
    }
}

/// A table from numeric IDs to values, built once and read-only afterward.
#[derive(Debug)]
pub struct IdMap<V> {
    pub entries: Vec<(u32, V)>,
}

impl<V> IdMap<V> {
    /// Whether the table is well formed: no key occurs twice.
    pub open spec fn wf(&self) -> bool {
        unique_keys(self.entries@)
    }

    /// Whether the table holds an entry under `k`.
    pub open spec fn spec_contains(&self, k: u32) -> bool {
        exists|i: int| 0 <= i < self.entries@.len() && (#[trigger] self.entries@[i]).0 == k
    }

    /// An empty table.
    pub fn new() -> (r: IdMap<V>)
        ensures
            r.entries@ =~= Seq::<(u32, V)>::empty(),
            r.wf(),
    {
        IdMap { entries: Vec::new() }
    }

    /// The number of entries.
    pub fn len(&self) -> (r: usize)
        ensures
            r == self.entries@.len(),
    {
        self.entries.len()
    }

    /// Looks the value under `k` up. Absence is an empty result, never an
    /// error.
    pub fn get(&self, k: u32) -> (r: Option<&V>)
        ensures
            match r {
                Some(v) => alist_get(self.entries@, k) == Some(*v) && exists|i: int|
                    0 <= i < self.entries@.len() && #[trigger] self.entries@[i] == (k, *v),
                None => alist_get(self.entries@, k) is None && forall|i: int|
                    0 <= i < self.entries@.len() ==> (#[trigger] self.entries@[i]).0 != k,
            },
    {
        let n = self.entries.len();
        let mut i: usize = 0;
        while i < n
            invariant
                0 <= i <= n == self.entries@.len(),
                forall|j: int| 0 <= j < i ==> (#[trigger] self.entries@[j]).0 != k,
            decreases n - i,
        {
            if self.entries[i].0 == k {
                proof {
                    lemma_alist_get_skip(self.entries@, k, i as int);
                }
                return Some(&self.entries[i].1);
            }
            i = i + 1;
        }
        proof {
            lemma_alist_get_skip(self.entries@, k, n as int);
            assert(self.entries@.skip(n as int) =~= Seq::<(u32, V)>::empty());
        }
        None
    }

    /// Binds `k` to `v`: replaces the value in place when `k` is present,
    /// appends otherwise. The last write wins.
    pub fn insert(&mut self, k: u32, v: V)
        ensures
            final(self).entries@ =~= alist_update(old(self).entries@, k, v),
            old(self).wf() ==> final(self).wf(),
    {
        let n = self.entries.len();
        let mut i: usize = 0;
        while i < n
            invariant
                *self == *old(self),
                0 <= i <= n == self.entries@.len(),
                forall|j: int| 0 <= j < i ==> (#[trigger] self.entries@[j]).0 != k,
            decreases n - i,
        {
            if self.entries[i].0 == k {
                proof {
                    lemma_alist_update_at(self.entries@, k, v, i as int);
                }
                self.entries.remove(i);
                self.entries.insert(i, (k, v));
                proof {
                    assert(self.entries@ =~= old(self).entries@.update(i as int, (k, v)));
                    assert(forall|a: int, b: int|
                        0 <= a < b < self.entries@.len() && old(self).wf() ==> (
                        #[trigger] self.entries@[a]).0 != (#[trigger] self.entries@[b]).0);
                }
                return ;
            }
            i = i + 1;
        }
        proof {
            lemma_alist_update_missing(self.entries@, k, v);
        }
        self.entries.push((k, v));
    }
}

/// Whether no two entries of `s` share a key, compared by content.
pub open spec fn unique_skeys<V>(s: Seq<(String, V)>) -> bool {
    forall|i: int, j: int| 0 <= i < j < s.len() ==> (#[trigger] s[i]).0@ != (#[trigger] s[j]).0@
}

/// The value under the first entry holding `k`, scanning from the front.
/// Keys are compared by content.
pub open spec fn salist_get<V>(s: Seq<(String, V)>, k: Seq<char>) -> Option<V>
    decreases s.len(),
{
    if s.len() == 0 {
        None
    } else if s[0].0@ == k {
        Some(s[0].1)
    } else {
        salist_get(s.drop_first(), k)
    }
}

/// Entries before `i` without the key do not change what is found.
pub proof fn lemma_salist_get_skip<V>(s: Seq<(String, V)>, k: Seq<char>, i: int)
    requires
        0 <= i <= s.len(),
        forall|j: int| 0 <= j < i ==> (#[trigger] s[j]).0@ != k,
    ensures
        salist_get(s, k) == salist_get(s.skip(i), k),
    decreases i,
{
    if i == 0 {
        assert(s.skip(0) =~= s);
    } else {
        lemma_salist_get_skip(s.drop_first(), k, i - 1);
        assert(s.drop_first().skip(i - 1) =~= s.skip(i));
    }
}

/// `s` with the value under `k` replaced in place, or appended when `k` is
/// absent. Keys are compared by content.
pub open spec fn salist_update<V>(s: Seq<(String, V)>, k: String, v: V) -> Seq<(String, V)>
    decreases s.len(),
{
    if s.len() == 0 {
        seq![(k, v)]
    } else if s[0].0@ == k@ {
        seq![(k, v)] + s.drop_first()
    } else {
        seq![s[0]] + salist_update(s.drop_first(), k, v)
    }
}

proof fn lemma_salist_update_at<V>(s: Seq<(String, V)>, k: String, v: V, i: int)
    requires
        0 <= i < s.len(),
        s[i].0@ == k@,
        forall|j: int| 0 <= j < i ==> (#[trigger] s[j]).0@ != k@,
    ensures
        salist_update(s, k, v) =~= s.update(i, (k, v)),
    decreases i,
{
    if i == 0 {
        assert(salist_update(s, k, v) =~= s.update(0, (k, v)));
    } else {
        lemma_salist_update_at(s.drop_first(), k, v, i - 1);
        assert(salist_update(s, k, v) =~= s.update(i, (k, v)));
    }
}

proof fn lemma_salist_update_missing<V>(s: Seq<(String, V)>, k: String, v: V)
    requires
        forall|j: int| 0 <= j < s.len() ==> (#[trigger] s[j]).0@ != k@,
    ensures
        salist_update(s, k, v) =~= s.push((k, v)),
    decreases s.len(),
{
    if s.len() > 0 {
        lemma_salist_update_missing(s.drop_first(), k, v);
        assert(salist_update(s, k, v) =~= s.push((k, v)));
    }
}

/// Compares two string slices by content.
pub fn str_eq(a: &str, b: &str) -> (r: bool)
    ensures
        r == (a@ == b@),
{
    let n = a.unicode_len();
    let m = b.unicode_len();
    if n != m {
        return false;
    }
    let mut i: usize = 0;
    while i < n
        invariant
            0 <= i <= n == a@.len(),
            n == b@.len(),
            forall|j: int| 0 <= j < i ==> a@[j] == b@[j],
        decreases n - i,
    {
        if a.get_char(i) != b.get_char(i) {
            return false;
        }
        i = i + 1;
    }
    proof {
        assert(a@ =~= b@);
    }
    true
}

/// A map of string keys to values of type `V`, built once and read-only
/// afterward. It keys the locale tables of translatable entries, the
/// UI-string tables, and the legacy string-identifier table.
#[derive(Debug)]
pub struct Translations<V> {
    pub entries: Vec<(String, V)>,
}

impl<V> Translations<V> {
    /// Whether the map is well formed: no key occurs twice.
    pub open spec fn wf(&self) -> bool {
        unique_skeys(self.entries@)
    }

    /// Whether the map holds an entry under `k`.
    pub open spec fn spec_contains(&self, k: Seq<char>) -> bool {
        exists|i: int| 0 <= i < self.entries@.len() && (#[trigger] self.entries@[i]).0@ == k
    }

    /// An empty map.
    pub fn new() -> (r: Translations<V>)
        ensures
            r.entries@ =~= Seq::<(String, V)>::empty(),
            r.wf(),
    {
        Translations { entries: Vec::new() }
    }

    /// The number of entries.
    pub fn len(&self) -> (r: usize)
        ensures
            r == self.entries@.len(),
    {
        self.entries.len()
    }

    /// Looks the value under `k` up. Absence is an empty result, never an
    /// error.
    pub fn get(&self, k: &str) -> (r: Option<&V>)
        ensures
            match r {
                Some(v) => salist_get(self.entries@, k@) == Some(*v) && exists|i: int|
                    0 <= i < self.entries@.len() && (#[trigger] self.entries@[i]).0@ == k@
                        && self.entries@[i].1 == *v,
                None => salist_get(self.entries@, k@) is None && forall|i: int|
                    0 <= i < self.entries@.len() ==> (#[trigger] self.entries@[i]).0@ != k@,
            },
    {
        let n = self.entries.len();
        let mut i: usize = 0;
        while i < n
            invariant
                0 <= i <= n == self.entries@.len(),
                forall|j: int| 0 <= j < i ==> (#[trigger] self.entries@[j]).0@ != k@,
            decreases n - i,
        {
            if str_eq(self.entries[i].0.as_str(), k) {
                proof {
                    lemma_salist_get_skip(self.entries@, k@, i as int);
                }
                return Some(&self.entries[i].1);
            }
            i = i + 1;
        }
        proof {
            lemma_salist_get_skip(self.entries@, k@, n as int);
            assert(self.entries@.skip(n as int) =~= Seq::<(String, V)>::empty());
        }
        None
    }

    /// Binds `k` to `v`: replaces the value in place when `k` is present,
    /// appends otherwise. The last write wins.
    pub fn insert(&mut self, k: String, v: V)
        ensures
            final(self).entries@ =~= salist_update(old(self).entries@, k, v),
            old(self).wf() ==> final(self).wf(),
    {
        let n = self.entries.len();
        let mut i: usize = 0;
        while i < n
            invariant
                *self == *old(self),
                0 <= i <= n == self.entries@.len(),
                forall|j: int| 0 <= j < i ==> (#[trigger] self.entries@[j]).0@ != k@,
            decreases n - i,
        {
            if str_eq(self.entries[i].0.as_str(), k.as_str()) {
                proof {
                    lemma_salist_update_at(self.entries@, k, v, i as int);
                }
                self.entries.remove(i);
                self.entries.insert(i, (k, v));
                proof {
                    assert(self.entries@ =~= old(self).entries@.update(i as int, (k, v)));
                    assert(forall|a: int, b: int|
                        0 <= a < b < self.entries@.len() && old(self).wf() ==> (
                        #[trigger] self.entries@[a]).0@ != (#[trigger] self.entries@[b]).0@);
                }
                return ;
            }
            i = i + 1;
        }
        proof {
            lemma_salist_update_missing(self.entries@, k, v);
        }
        self.entries.push((k, v));
    }
}

/// A string-keyed entry list reduced to the content of its keys, for
/// stating what loaders build independently of string identity.
pub open spec fn sviews<V>(s: Seq<(String, V)>) -> Seq<(Seq<char>, V)> {
    s.map_values(|e: (String, V)| (e.0@, e.1))
}

/// `s` with the value under `k` replaced in place, or appended when `k` is
/// absent, over key contents.
pub open spec fn vsalist_update<V>(s: Seq<(Seq<char>, V)>, k: Seq<char>, v: V) -> Seq<
    (Seq<char>, V),
>
    decreases s.len(),
{
    if s.len() == 0 {
        seq![(k, v)]
    } else if s[0].0 == k {
        seq![(k, v)] + s.drop_first()
    } else {
        seq![s[0]] + vsalist_update(s.drop_first(), k, v)
    }
}

/// The value under the first entry holding `k`, over key contents.
pub open spec fn vsalist_get<V>(s: Seq<(Seq<char>, V)>, k: Seq<char>) -> Option<V>
    decreases s.len(),
{
    if s.len() == 0 {
        None
    } else if s[0].0 == k {
        Some(s[0].1)
    } else {
        vsalist_get(s.drop_first(), k)
    }
}

/// Looking up by string finds the same value as looking up its content.
pub proof fn lemma_sviews_get<V>(s: Seq<(String, V)>, k: Seq<char>)
    ensures
        salist_get(s, k) == vsalist_get(sviews(s), k),
    decreases s.len(),
{
    assert(sviews(s).len() == s.len());
    if s.len() > 0 {
        assert(sviews(s)[0] == (s[0].0@, s[0].1));
        assert(sviews(s).drop_first() =~= sviews(s.drop_first()));
        lemma_sviews_get(s.drop_first(), k);
    }
}

/// Replacing by string shows as replacing by key content.
pub proof fn lemma_sviews_update<V>(s: Seq<(String, V)>, k: String, v: V)
    ensures
        sviews(salist_update(s, k, v)) =~= vsalist_update(sviews(s), k@, v),
    decreases s.len(),
{
    assert(sviews(s).len() == s.len());
    if s.len() == 0 {
        assert(salist_update(s, k, v) =~= seq![(k, v)]);
        assert(sviews(seq![(k, v)]).len() == 1);
        assert(sviews(seq![(k, v)])[0] == (k@, v));
        assert(vsalist_update(sviews(s), k@, v) =~= seq![(k@, v)]);
        assert(sviews(salist_update(s, k, v)) =~= vsalist_update(sviews(s), k@, v));
    } else if s[0].0@ == k@ {
        assert(sviews(s)[0] == (s[0].0@, s[0].1));
        let u = salist_update(s, k, v);
        assert(u =~= seq![(k, v)] + s.drop_first());
        let w = vsalist_update(sviews(s), k@, v);
        assert(w == seq![(k@, v)] + sviews(s).drop_first());
        assert(sviews(u).len() == w.len());
        assert forall|i: int| 0 <= i < u.len() implies sviews(u)[i] == w[i] by {
            assert(sviews(u)[i] == (u[i].0@, u[i].1));
            if i > 0 {
                assert(u[i] == s[i]);
                assert(sviews(s)[i] == (s[i].0@, s[i].1));
                assert(w[i] == sviews(s).drop_first()[i - 1]);
            }
        }
        assert(sviews(u) =~= w);
    } else {
        assert(sviews(s)[0] == (s[0].0@, s[0].1));
        let u = salist_update(s, k, v);
        assert(u =~= seq![s[0]] + salist_update(s.drop_first(), k, v));
        lemma_sviews_update(s.drop_first(), k, v);
        assert(sviews(s).drop_first() =~= sviews(s.drop_first()));
        let w = vsalist_update(sviews(s), k@, v);
        assert(w == seq![sviews(s)[0]] + vsalist_update(sviews(s).drop_first(), k@, v));
        assert(sviews(u).len() == u.len());
        assert(w.len() == 1 + vsalist_update(sviews(s.drop_first()), k@, v).len());
        assert(sviews(salist_update(s.drop_first(), k, v)).len() == salist_update(
            s.drop_first(),
            k,
            v,
        ).len());
        assert forall|i: int| 0 <= i < u.len() implies sviews(u)[i] == w[i] by {
            assert(sviews(u)[i] == (u[i].0@, u[i].1));
            if i > 0 {
                assert(u[i] == salist_update(s.drop_first(), k, v)[i - 1]);
                assert(sviews(salist_update(s.drop_first(), k, v))[i - 1] == (u[i].0@, u[i].1));
                assert(w[i] == vsalist_update(sviews(s.drop_first()), k@, v)[i - 1]);
            }
        }
        assert(sviews(u) =~= w);
    }
}

/// What is found under `k` after an update over key contents: the new value
/// under `k` itself, and under every other key what was found before.
pub proof fn lemma_vsalist_get_update<V>(s: Seq<(Seq<char>, V)>, k: Seq<char>, v: V, k2: Seq<char>)
    ensures
        vsalist_get(vsalist_update(s, k, v), k2) == if k2 == k {
            Some(v)
        } else {
            vsalist_get(s, k2)
        },
    decreases s.len(),
{
    let u = vsalist_update(s, k, v);
    if s.len() == 0 {
        assert(u.len() == 1 && u[0] == (k, v));
        assert(u.drop_first() =~= Seq::<(Seq<char>, V)>::empty());
        assert(vsalist_get(u.drop_first(), k2) is None);
        if k2 == k {
            assert(vsalist_get(u, k2) == Some(v));
        } else {
            assert(vsalist_get(u, k2) is None);
        }
    } else if s[0].0 == k {
        assert(u.len() == 1 + s.drop_first().len() && u[0] == (k, v));
        assert(u.drop_first() =~= s.drop_first());
        if k2 == k {
            assert(vsalist_get(u, k2) == Some(v));
        } else {
            assert(vsalist_get(u, k2) == vsalist_get(s.drop_first(), k2));
            assert(vsalist_get(s, k2) == vsalist_get(s.drop_first(), k2));
        }
    } else {
        assert(u.len() == 1 + vsalist_update(s.drop_first(), k, v).len() && u[0] == s[0]);
        assert(u.drop_first() =~= vsalist_update(s.drop_first(), k, v));
        lemma_vsalist_get_update(s.drop_first(), k, v, k2);
        if k2 == s[0].0 {
            assert(vsalist_get(u, k2) == Some(s[0].1));
            assert(vsalist_get(s, k2) == Some(s[0].1));
        } else {
            assert(vsalist_get(u, k2) == vsalist_get(u.drop_first(), k2));
            assert(vsalist_get(s, k2) == vsalist_get(s.drop_first(), k2));
        }
    }
}

} // verus!
