//! Collections kept sorted by a string key, with at most one entry per key: the in-memory form
//! of the devices, profiles and actions files, listed in key order.
use vstd::prelude::*;

use crate::text::str_eq;

verus! {

/// Lexicographic order on characters, which for UTF-8 text is the byte order `String`'s `Ord`
/// uses.
pub open spec fn key_lt(a: Seq<char>, b: Seq<char>) -> bool
    decreases a.len(),
{
    if a.len() == 0 {
        b.len() > 0
    } else if b.len() == 0 {
        false
    } else if a[0] != b[0] {
        (a[0] as int) < (b[0] as int)
    } else {
        key_lt(a.drop_first(), b.drop_first())
    }
}

pub proof fn lemma_key_lt_irreflexive(a: Seq<char>)
    ensures
        !key_lt(a, a),
    decreases a.len(),
{
    if a.len() > 0 {
        lemma_key_lt_irreflexive(a.drop_first());
    }
}

pub proof fn lemma_key_lt_transitive(a: Seq<char>, b: Seq<char>, c: Seq<char>)
    requires
        key_lt(a, b),
        key_lt(b, c),
    ensures
        key_lt(a, c),
    decreases a.len(),
{
    if a.len() > 0 && b.len() > 0 && c.len() > 0 && a[0] == b[0] && b[0] == c[0] {
        lemma_key_lt_transitive(a.drop_first(), b.drop_first(), c.drop_first());
    }
}

pub proof fn lemma_key_lt_total(a: Seq<char>, b: Seq<char>)
    ensures
        a == b || key_lt(a, b) || key_lt(b, a),
    decreases a.len(),
{
    if a.len() == 0 && b.len() == 0 {
        assert(a =~= b);
    } else if a.len() > 0 && b.len() > 0 {
        if a[0] == b[0] {
            lemma_key_lt_total(a.drop_first(), b.drop_first());
            if a.drop_first() == b.drop_first() {
                assert(a.len() == b.len());
                assert forall|j: int| 0 <= j < a.len() implies a[j] == b[j] by {
                    if j > 0 {
                        assert(a[j] == a.drop_first()[j - 1]);
                        assert(b[j] == b.drop_first()[j - 1]);
                    }
                }
                assert(a =~= b);
            }
        } else {
            assert((a[0] as int) != (b[0] as int));
        }
    }
}

pub proof fn lemma_key_lt_asymmetric(a: Seq<char>, b: Seq<char>)
    requires
        key_lt(a, b),
    ensures
        !key_lt(b, a),
{
    if key_lt(b, a) {
        lemma_key_lt_transitive(a, b, a);
        lemma_key_lt_irreflexive(a);
    }
}

/// `a < b` in key order.
pub fn str_lt(a: &str, b: &str) -> (r: bool)
    ensures
        r == key_lt(a@, b@),
{
    let n = a.unicode_len();
    let m = b.unicode_len();
    let mut i: usize = 0;
    assert(a@.skip(0) =~= a@);
    assert(b@.skip(0) =~= b@);
    while i < n && i < m && a.get_char(i) == b.get_char(i)
        invariant
            n == a@.len(),
            m == b@.len(),
            i <= n,
            i <= m,
            key_lt(a@, b@) == key_lt(a@.skip(i as int), b@.skip(i as int)),
        decreases n - i,
    {
        assert(a@.skip(i as int).drop_first() =~= a@.skip(i + 1));
        assert(b@.skip(i as int).drop_first() =~= b@.skip(i + 1));
        i = i + 1;
    }
    if i == n {
        i < m
    } else if i == m {
        false
    } else {
        let x = a.get_char(i);
        let y = b.get_char(i);
        assert(a@.skip(i as int)[0] == x);
        assert(b@.skip(i as int)[0] == y);
        (x as u32) < (y as u32)
    }
}

/// A value stored under a string key.
pub trait Keyed {
    spec fn key_spec(&self) -> Seq<char>;

    fn key(&self) -> (r: &str)
        ensures
            r@ == self.key_spec(),
    ;
}

/// Strictly increasing keys, hence at most one entry per key.
pub open spec fn sorted<T: Keyed>(s: Seq<T>) -> bool {
    forall|i: int, j: int| 0 <= i < j < s.len() ==> key_lt(#[trigger] s[i].key_spec(), #[trigger] s[j].key_spec())
}

/// Some entry has this key.
pub open spec fn has_key<T: Keyed>(s: Seq<T>, k: Seq<char>) -> bool {
    exists|i: int| 0 <= i < s.len() && #[trigger] s[i].key_spec() == k
}

/// An index holding `k`, where there is one.
pub open spec fn key_index<T: Keyed>(s: Seq<T>, k: Seq<char>) -> int {
    choose|i: int| 0 <= i < s.len() && #[trigger] s[i].key_spec() == k
}

/// The entry stored under `k`, if any.
pub open spec fn lookup<T: Keyed>(s: Seq<T>, k: Seq<char>) -> Option<T> {
    if has_key(s, k) {
        Some(s[key_index(s, k)])
    } else {
        None
    }
}

/// The entries as a map from key to entry.
pub open spec fn as_map<T: Keyed>(s: Seq<T>) -> Map<Seq<char>, T> {
    Map::new(|k: Seq<char>| has_key(s, k), |k: Seq<char>| s[key_index(s, k)])
}

proof fn lemma_map_insert_from_lookup<T: Keyed>(s: Seq<T>, s2: Seq<T>, item: T)
    requires
        forall|k: Seq<char>|
            #[trigger] lookup(s2, k) == if k == item.key_spec() {
                Some(item)
            } else {
                lookup(s, k)
            },
    ensures
        as_map(s2) == as_map(s).insert(item.key_spec(), item),
{
    let m2 = as_map(s2);
    let m = as_map(s).insert(item.key_spec(), item);
    assert forall|k: Seq<char>| #[trigger] m2.dom().contains(k) == m.dom().contains(k) by {
        assert(lookup(s2, k) == lookup(s2, k));
    }
    assert forall|k: Seq<char>| m2.dom().contains(k) implies #[trigger] m2[k] == m[k] by {
        assert(lookup(s2, k) == lookup(s2, k));
    }
    assert(m2 =~= m);
}

proof fn lemma_map_remove_from_lookup<T: Keyed>(s: Seq<T>, s2: Seq<T>, key: Seq<char>)
    requires
        forall|k: Seq<char>|
            #[trigger] lookup(s2, k) == if k == key {
                None
            } else {
                lookup(s, k)
            },
    ensures
        as_map(s2) == as_map(s).remove(key),
{
    let m2 = as_map(s2);
    let m = as_map(s).remove(key);
    assert forall|k: Seq<char>| #[trigger] m2.dom().contains(k) == m.dom().contains(k) by {
        assert(lookup(s2, k) == lookup(s2, k));
    }
    assert forall|k: Seq<char>| m2.dom().contains(k) implies #[trigger] m2[k] == m[k] by {
        assert(lookup(s2, k) == lookup(s2, k));
    }
    assert(m2 =~= m);
}

/// In a sorted sequence, the entry at `i` is what the map holds under its key.
pub proof fn lemma_map_at<T: Keyed>(s: Seq<T>, i: int)
    requires
        sorted(s),
        0 <= i < s.len(),
    ensures
        as_map(s).dom().contains(s[i].key_spec()),
        as_map(s)[s[i].key_spec()] == s[i],
{
    lemma_lookup_at(s, i);
}

/// The map holds a key exactly when some entry has it.
pub proof fn lemma_map_dom<T: Keyed>(s: Seq<T>, k: Seq<char>)
    ensures
        as_map(s).dom().contains(k) == has_key(s, k),
{
}

/// In a sorted sequence two entries with the same key are the same entry.
pub proof fn lemma_sorted_unique<T: Keyed>(s: Seq<T>, i: int, j: int)
    requires
        sorted(s),
        0 <= i < s.len(),
        0 <= j < s.len(),
        s[i].key_spec() == s[j].key_spec(),
    ensures
        i == j,
{
    if i < j {
        lemma_key_lt_irreflexive(s[i].key_spec());
    } else if j < i {
        lemma_key_lt_irreflexive(s[i].key_spec());
    }
}

/// In a sorted sequence, the entry at `i` is what `lookup` finds under its key.
pub proof fn lemma_lookup_at<T: Keyed>(s: Seq<T>, n: int)
    requires
        sorted(s),
        0 <= n < s.len(),
    ensures
        lookup(s, s[n].key_spec()) == Some(s[n]),
{
    let k = s[n].key_spec();
    assert(has_key(s, k));
    let j = key_index(s, k);
    assert(0 <= j < s.len() && s[j].key_spec() == k);
    lemma_sorted_unique(s, n, j);
    assert(s[j] == s[n]);
}

/// The index of the entry stored under `key`, if any.
pub fn find<T: Keyed>(v: &Vec<T>, key: &str) -> (r: Option<usize>)
    ensures
        match r {
            Some(i) => i < v@.len() && v@[i as int].key_spec() == key@,
            None => !has_key(v@, key@),
        },
        r is None <==> !as_map(v@).dom().contains(key@),
        sorted(v@) ==> (r matches Some(i) ==> as_map(v@)[key@] == v@[i as int]),
{
    let mut i: usize = 0;
    while i < v.len()
        invariant
            i <= v@.len(),
            forall|j: int| 0 <= j < i ==> (#[trigger] v@[j]).key_spec() != key@,
        decreases v@.len() - i,
    {
        if str_eq(v[i].key(), key) {
            proof {
                if sorted(v@) {
                    lemma_map_at(v@, i as int);
                }
            }
            return Some(i);
        }
        i = i + 1;
    }
    None
}

/// Where `key` belongs: the first index whose key is not below it.
fn slot<T: Keyed>(v: &Vec<T>, key: &str) -> (r: usize)
    requires
        sorted(v@),
    ensures
        r <= v@.len(),
        forall|j: int| 0 <= j < r ==> key_lt(#[trigger] v@[j].key_spec(), key@),
        r < v@.len() ==> !key_lt(v@[r as int].key_spec(), key@),
{
    let mut i: usize = 0;
    while i < v.len() && str_lt(v[i].key(), key)
        invariant
            i <= v@.len(),
            forall|j: int| 0 <= j < i ==> key_lt(#[trigger] v@[j].key_spec(), key@),
        decreases v@.len() - i,
    {
        i = i + 1;
    }
    i
}

proof fn lemma_replace_at<T: Keyed>(s: Seq<T>, i: int, item: T)
    requires
        sorted(s),
        0 <= i < s.len(),
        s[i].key_spec() == item.key_spec(),
    ensures
        sorted(s.update(i, item)),
        forall|k: Seq<char>|
            #[trigger] lookup(s.update(i, item), k) == if k == item.key_spec() {
                Some(item)
            } else {
                lookup(s, k)
            },
{
    let key = item.key_spec();
    let s2 = s.update(i, item);
    assert forall|a: int, b: int| 0 <= a < b < s2.len() implies key_lt(
        #[trigger] s2[a].key_spec(),
        #[trigger] s2[b].key_spec(),
    ) by {
        assert(s[a].key_spec() == s2[a].key_spec());
        assert(s[b].key_spec() == s2[b].key_spec());
    }
    assert forall|k: Seq<char>| #[trigger]
        lookup(s2, k) == if k == key {
            Some(item)
        } else {
            lookup(s, k)
        } by {
        if k == key {
            lemma_lookup_at(s2, i);
        } else if has_key(s, k) {
            let j = choose|j: int| 0 <= j < s.len() && #[trigger] s[j].key_spec() == k;
            assert(s2[j] == s[j]);
            lemma_lookup_at(s, j);
            lemma_lookup_at(s2, j);
        } else {
            assert forall|j: int| 0 <= j < s2.len() implies #[trigger] s2[j].key_spec() != k by {
                if j != i {
                    assert(s2[j] == s[j]);
                }
            }
        }
    }
}

proof fn lemma_insert_at<T: Keyed>(s: Seq<T>, i: int, item: T)
    requires
        sorted(s),
        0 <= i <= s.len(),
        forall|j: int| 0 <= j < i ==> key_lt(#[trigger] s[j].key_spec(), item.key_spec()),
        i < s.len() ==> key_lt(item.key_spec(), s[i].key_spec()),
    ensures
        sorted(s.insert(i, item)),
        forall|k: Seq<char>|
            #[trigger] lookup(s.insert(i, item), k) == if k == item.key_spec() {
                Some(item)
            } else {
                lookup(s, k)
            },
{
    let key = item.key_spec();
    let s2 = s.insert(i, item);
    s.insert_ensures(i, item);
    assert forall|j: int| 0 <= j < s2.len() implies #[trigger] s2[j] == (if j < i {
        s[j]
    } else if j == i {
        item
    } else {
        s[j - 1]
    }) by {
        if j > i {
            assert(s2[(j - 1) + 1] == s[j - 1]);
        }
    }
    assert forall|a: int, b: int| 0 <= a < b < s2.len() implies key_lt(
        #[trigger] s2[a].key_spec(),
        #[trigger] s2[b].key_spec(),
    ) by {
        if a == i && b > i + 1 {
            lemma_key_lt_transitive(key, s[i].key_spec(), s[b - 1].key_spec());
        }
    }
    assert forall|k: Seq<char>| #[trigger]
        lookup(s2, k) == if k == key {
            Some(item)
        } else {
            lookup(s, k)
        } by {
        if k == key {
            lemma_lookup_at(s2, i);
        } else if has_key(s, k) {
            let j = choose|j: int| 0 <= j < s.len() && #[trigger] s[j].key_spec() == k;
            let j2 = if j < i {
                j
            } else {
                j + 1
            };
            assert(s2[j2] == s[j]);
            lemma_lookup_at(s, j);
            lemma_lookup_at(s2, j2);
        } else {
            assert forall|j: int| 0 <= j < s2.len() implies #[trigger] s2[j].key_spec() != k by {
                if j < i {
                    assert(s2[j] == s[j]);
                } else if j > i {
                    assert(s2[j] == s[j - 1]);
                }
            }
        }
    }
}

/// Stores `item` under its key, replacing any entry already there, keeping key order.
pub fn upsert<T: Keyed>(v: &mut Vec<T>, item: T)
    requires
        sorted(old(v)@),
    ensures
        sorted(final(v)@),
        as_map(final(v)@) == as_map(old(v)@).insert(item.key_spec(), item),
        forall|k: Seq<char>|
            #[trigger] lookup(final(v)@, k) == if k == item.key_spec() {
                Some(item)
            } else {
                lookup(old(v)@, k)
            },
{
    let ghost s = v@;
    let i = slot(v, item.key());
    if i < v.len() && str_eq(v[i].key(), item.key()) {
        proof {
            lemma_replace_at(s, i as int, item);
            lemma_map_insert_from_lookup(s, s.update(i as int, item), item);
        }
        v.set(i, item);
    } else {
        proof {
            if i < s.len() {
                lemma_key_lt_total(s[i as int].key_spec(), item.key_spec());
            }
            lemma_insert_at(s, i as int, item);
            lemma_map_insert_from_lookup(s, s.insert(i as int, item), item);
        }
        v.insert(i, item);
    }
}

/// Removes the entry at `i`, keeping key order; what `lookup` finds under other keys is
/// unchanged.
pub fn remove_at<T: Keyed>(v: &mut Vec<T>, i: usize) -> (r: T)
    requires
        sorted(old(v)@),
        i < old(v)@.len(),
    ensures
        r == old(v)@[i as int],
        final(v)@ == old(v)@.remove(i as int),
        sorted(final(v)@),
        as_map(final(v)@) == as_map(old(v)@).remove(r.key_spec()),
        forall|k: Seq<char>|
            #[trigger] lookup(final(v)@, k) == if k == r.key_spec() {
                None
            } else {
                lookup(old(v)@, k)
            },
{
    let ghost s = v@;
    let ghost key = s[i as int].key_spec();
    let r = v.remove(i);
    let ghost s2 = v@;
    assert(sorted(s2)) by {
        assert forall|a: int, b: int| 0 <= a < b < s2.len() implies key_lt(
            #[trigger] s2[a].key_spec(),
            #[trigger] s2[b].key_spec(),
        ) by {
            let a0 = if a < i {
                a
            } else {
                a + 1
            };
            let b0 = if b < i {
                b
            } else {
                b + 1
            };
            assert(s2[a] == s[a0]);
            assert(s2[b] == s[b0]);
        }
    }
    assert forall|k: Seq<char>| #[trigger]
        lookup(s2, k) == if k == key {
            None
        } else {
            lookup(s, k)
        } by {
        if k == key {
            assert forall|j: int| 0 <= j < s2.len() implies #[trigger] s2[j].key_spec() != k by {
                let j0 = if j < i {
                    j
                } else {
                    j + 1
                };
                assert(s2[j] == s[j0]);
                if s[j0].key_spec() == key {
                    lemma_sorted_unique(s, j0, i as int);
                }
            }
        } else if has_key(s, k) {
            let j = choose|j: int| 0 <= j < s.len() && #[trigger] s[j].key_spec() == k;
            assert(j != i);
            let j2 = if j < i {
                j
            } else {
                j - 1
            };
            assert(s2[j2] == s[j]);
            lemma_lookup_at(s, j);
            lemma_lookup_at(s2, j2);
        } else {
            assert forall|j: int| 0 <= j < s2.len() implies #[trigger] s2[j].key_spec() != k by {
                let j0 = if j < i {
                    j
                } else {
                    j + 1
                };
                assert(s2[j] == s[j0]);
            }
        }
    }
    proof {
        lemma_map_remove_from_lookup(s, s2, key);
    }
    r
}

} // verus!
