//! Vectors of keyed values kept in strictly increasing key order, so that
//! they act as maps from keys to values and list their values ordered by key.
//! Keys are strings, ordered as `str`'s `Ord` orders them (by code point).

use vstd::prelude::*;
use crate::text::chars_of;

verus! {

/// The lexicographic order on character sequences (a proper prefix comes first).
pub open spec fn chars_lt(a: Seq<char>, b: Seq<char>) -> bool
    decreases a.len(),
{
    if a.len() == 0 {
        b.len() > 0
    } else if b.len() == 0 {
        false
    } else if a[0] != b[0] {
        a[0] < b[0]
    } else {
        chars_lt(a.drop_first(), b.drop_first())
    }
}

/// No sequence comes before itself.
pub proof fn lemma_lt_irreflexive(a: Seq<char>)
    ensures
        !chars_lt(a, a),
    decreases a.len(),
{
    if a.len() > 0 {
        lemma_lt_irreflexive(a.drop_first());
    }
}

/// The order is transitive.
pub proof fn lemma_lt_transitive(a: Seq<char>, b: Seq<char>, c: Seq<char>)
    requires
        chars_lt(a, b),
        chars_lt(b, c),
    ensures
        chars_lt(a, c),
    decreases a.len(),
{
    if a.len() > 0 && b.len() > 0 && c.len() > 0 {
        if a[0] == b[0] && b[0] == c[0] {
            lemma_lt_transitive(a.drop_first(), b.drop_first(), c.drop_first());
        }
    }
}

/// Two different sequences are ordered one way or the other.
pub proof fn lemma_lt_total(a: Seq<char>, b: Seq<char>)
    requires
        a != b,
    ensures
        chars_lt(a, b) || chars_lt(b, a),
    decreases a.len(),
{
    if a.len() > 0 && b.len() > 0 && a[0] == b[0] {
        if a.drop_first() == b.drop_first() {
            assert(a =~= seq![a[0]] + a.drop_first());
            assert(b =~= seq![b[0]] + b.drop_first());
        }
        lemma_lt_total(a.drop_first(), b.drop_first());
    } else if a.len() == 0 && b.len() == 0 {
        assert(a =~= b);
    }
}

/// Two sequences that share their first `i` characters compare as what follows them.
pub proof fn lemma_lt_skip_common(a: Seq<char>, b: Seq<char>, i: int)
    requires
        0 <= i <= a.len(),
        i <= b.len(),
        a.subrange(0, i) == b.subrange(0, i),
    ensures
        chars_lt(a, b) == chars_lt(a.subrange(i, a.len() as int), b.subrange(i, b.len() as int)),
    decreases i,
{
    if i == 0 {
        assert(a.subrange(0, a.len() as int) =~= a);
        assert(b.subrange(0, b.len() as int) =~= b);
    } else {
        assert(a[0] == a.subrange(0, i)[0]);
        assert(b[0] == b.subrange(0, i)[0]);
        let a1 = a.drop_first();
        let b1 = b.drop_first();
        assert(a1.subrange(0, i - 1) =~= a.subrange(0, i).drop_first());
        assert(b1.subrange(0, i - 1) =~= b.subrange(0, i).drop_first());
        lemma_lt_skip_common(a1, b1, i - 1);
        assert(a1.subrange(i - 1, a1.len() as int) =~= a.subrange(i, a.len() as int));
        assert(b1.subrange(i - 1, b1.len() as int) =~= b.subrange(i, b.len() as int));
    }
}

/// Whether `a` comes strictly before `b`.
pub fn chars_less(a: &Vec<char>, b: &Vec<char>) -> (r: bool)
    ensures
        r == chars_lt(a@, b@),
{
    let mut i: usize = 0;
    while i < a.len() && i < b.len() && a[i] == b[i]
        invariant
            i <= a.len(),
            i <= b.len(),
            a@.subrange(0, i as int) == b@.subrange(0, i as int),
        decreases a.len() - i,
    {
        i = i + 1;
        assert(a@.subrange(0, i as int) =~= b@.subrange(0, i as int)) by {
            assert forall|k: int| 0 <= k < i implies a@.subrange(0, i as int)[k] == b@.subrange(0, i as int)[k] by {
                if k < i - 1 {
                    assert(a@.subrange(0, i - 1)[k] == b@.subrange(0, i - 1)[k]);
                }
            }
        }
    }
    proof {
        lemma_lt_skip_common(a@, b@, i as int);
    }
    let ghost ra = a@.subrange(i as int, a@.len() as int);
    let ghost rb = b@.subrange(i as int, b@.len() as int);
    if i == a.len() {
        i < b.len()
    } else if i == b.len() {
        false
    } else {
        proof {
            assert(ra[0] == a@[i as int]);
            assert(rb[0] == b@[i as int]);
            assert(ra[0] != rb[0]);
        }
        let ca: char = a[i];
        let cb: char = b[i];
        proof {
            assert(ca == ra[0]);
            assert(cb == rb[0]);
        }
        ca < cb
    }
}

/// A value that carries a string key.
pub trait Keyed {
    /// The key, as characters.
    spec fn key_of(&self) -> Seq<char>;

    /// The key.
    fn key(&self) -> (k: &String)
        ensures
            k@ == self.key_of(),
    ;
}

/// The keys of `s` strictly increase from first to last.
pub open spec fn strictly_sorted<T: Keyed>(s: Seq<T>) -> bool {
    forall|i: int, j: int| 0 <= i < j < s.len() ==> chars_lt(#[trigger] s[i].key_of(), #[trigger] s[j].key_of())
}

/// Some value of `s` has key `k`.
pub open spec fn holds_key<T: Keyed>(s: Seq<T>, k: Seq<char>) -> bool {
    exists|i: int| 0 <= i < s.len() && #[trigger] s[i].key_of() == k
}

/// A position of `s` whose value has key `k`, the only one when `s` is strictly sorted.
pub open spec fn entry_index<T: Keyed>(s: Seq<T>, k: Seq<char>) -> int {
    choose|i: int| 0 <= i < s.len() && #[trigger] s[i].key_of() == k
}

/// A value of `s` with key `k`, the only one when `s` is strictly sorted.
pub open spec fn entry_of<T: Keyed>(s: Seq<T>, k: Seq<char>) -> T {
    s[entry_index(s, k)]
}

/// `s` read as a map from keys to values.
pub open spec fn key_map<T: Keyed>(s: Seq<T>) -> Map<Seq<char>, T> {
    Map::new(|k: Seq<char>| holds_key(s, k), |k: Seq<char>| entry_of(s, k))
}

/// In a strictly sorted sequence the map sends each key to the value at its position.
pub proof fn lemma_key_map_at<T: Keyed>(s: Seq<T>, i: int)
    requires
        strictly_sorted(s),
        0 <= i < s.len(),
    ensures
        key_map(s).contains_key(s[i].key_of()),
        key_map(s)[s[i].key_of()] == s[i],
{
    let k = s[i].key_of();
    assert(holds_key(s, k));
    let j = entry_index(s, k);
    assert(0 <= j < s.len() && s[j].key_of() == k);
    if j != i {
        lemma_lt_irreflexive(k);
        if j < i {
            assert(chars_lt(s[j].key_of(), s[i].key_of()));
        } else {
            assert(chars_lt(s[i].key_of(), s[j].key_of()));
        }
    }
    assert(key_map(s).dom().contains(k));
    assert(key_map(s)[k] == entry_of(s, k));
    assert(entry_of(s, k) == s[j]);
}

/// Where the key `key` stands in `v`: the number of values whose keys come
/// before it, and whether the value there has exactly that key.
pub fn find_position<T: Keyed>(v: &Vec<T>, key: &String) -> (r: (usize, bool))
    requires
        strictly_sorted(v@),
    ensures
        r.0 <= v.len(),
        forall|i: int| 0 <= i < r.0 ==> chars_lt(#[trigger] v@[i].key_of(), key@),
        r.1 ==> r.0 < v.len() && v@[r.0 as int].key_of() == key@,
        !r.1 ==> forall|i: int| r.0 <= i < v.len() ==> chars_lt(key@, #[trigger] v@[i].key_of()),
{
    let kc = chars_of(key.as_str());
    let mut p: usize = 0;
    while p < v.len() && chars_less(&chars_of(v[p].key().as_str()), &kc)
        invariant
            strictly_sorted(v@),
            kc@ == key@,
            p <= v.len(),
            forall|i: int| 0 <= i < p ==> chars_lt(#[trigger] v@[i].key_of(), key@),
        decreases v.len() - p,
    {
        p = p + 1;
    }
    if p < v.len() && *v[p].key() == *key {
        (p, true)
    } else {
        proof {
            if p < v.len() {
                let kp = v@[p as int].key_of();
                assert(!chars_lt(kp, key@));
                lemma_lt_total(kp, key@);
                assert forall|i: int| p <= i < v.len() implies chars_lt(key@, #[trigger] v@[i].key_of()) by {
                    if i > p {
                        lemma_lt_transitive(key@, kp, v@[i].key_of());
                    }
                }
            }
        }
        (p, false)
    }
}

/// The position of the value with key `key`, if there is one.
pub fn index_of_key<T: Keyed>(v: &Vec<T>, key: &String) -> (r: Option<usize>)
    requires
        strictly_sorted(v@),
    ensures
        r is None <==> !key_map(v@).contains_key(key@),
        r matches Some(i) ==> i < v.len() && v@[i as int].key_of() == key@
            && key_map(v@)[key@] == v@[i as int],
{
    let (p, found) = find_position(v, key);
    if found {
        proof {
            lemma_key_map_at(v@, p as int);
        }
        Some(p)
    } else {
        proof {
            if holds_key(v@, key@) {
                let j = choose|j: int| 0 <= j < v@.len() && #[trigger] v@[j].key_of() == key@;
                lemma_lt_irreflexive(key@);
                if j < p {
                    assert(chars_lt(v@[j].key_of(), key@));
                } else {
                    assert(chars_lt(key@, v@[j].key_of()));
                }
            }
        }
        None
    }
}

/// Puts `item` in `v` under its key, replacing the value that had that key.
pub fn upsert<T: Keyed>(v: &mut Vec<T>, item: T)
    requires
        strictly_sorted(old(v)@),
    ensures
        strictly_sorted(final(v)@),
        key_map(final(v)@) == key_map(old(v)@).insert(item.key_of(), item),
{
    let ghost old_s = v@;
    let ghost k = item.key_of();
    let (p, found) = find_position(v, item.key());
    let ghost pi = p as int;
    if found {
        v.set(p, item);
    } else {
        v.insert(p, item);
    }
    let ghost new_s = v@;
    proof {
        lemma_lt_irreflexive(k);
        // the new sequence stays strictly sorted
        assert forall|i: int, j: int| 0 <= i < j < new_s.len() implies chars_lt(
            #[trigger] new_s[i].key_of(),
            #[trigger] new_s[j].key_of(),
        ) by {
            if found {
                if i == pi {
                    assert(chars_lt(old_s[i].key_of(), old_s[j].key_of()));
                } else if j == pi {
                    assert(chars_lt(old_s[i].key_of(), old_s[j].key_of()));
                }
            } else {
                if i < pi && j == pi {
                } else if i == pi && j > pi {
                    assert(new_s[j] == old_s[j - 1]);
                } else if i < pi && j > pi {
                    assert(new_s[j] == old_s[j - 1]);
                    assert(chars_lt(old_s[i].key_of(), old_s[j - 1].key_of()));
                } else if i > pi {
                    assert(new_s[i] == old_s[i - 1]);
                    assert(new_s[j] == old_s[j - 1]);
                    assert(chars_lt(old_s[i - 1].key_of(), old_s[j - 1].key_of()));
                }
            }
        }
        let m_old = key_map(old_s);
        let m_new = key_map(new_s);
        let expected = m_old.insert(k, item);
        lemma_key_map_at(new_s, pi);
        assert forall|key: Seq<char>| #[trigger] m_new.contains_key(key) <==> expected.contains_key(key) by {
            if m_new.contains_key(key) {
                let j = choose|j: int| 0 <= j < new_s.len() && #[trigger] new_s[j].key_of() == key;
                if key != k {
                    if found {
                        assert(old_s[j].key_of() == key);
                    } else if j < pi {
                        assert(old_s[j].key_of() == key);
                    } else {
                        assert(old_s[j - 1].key_of() == key);
                    }
                }
            }
            if expected.contains_key(key) && key != k {
                let j = choose|j: int| 0 <= j < old_s.len() && #[trigger] old_s[j].key_of() == key;
                if found || j < pi {
                    assert(new_s[j].key_of() == key);
                } else {
                    assert(new_s[j + 1].key_of() == key);
                }
            }
        }
        assert forall|key: Seq<char>| #[trigger] m_new.contains_key(key) implies m_new[key] == expected[key] by {
            if key != k {
                let j = choose|j: int| 0 <= j < new_s.len() && #[trigger] new_s[j].key_of() == key;
                lemma_key_map_at(new_s, j);
                if found || j < pi {
                    assert(old_s[j] == new_s[j]);
                    lemma_key_map_at(old_s, j);
                } else {
                    assert(old_s[j - 1] == new_s[j]);
                    lemma_key_map_at(old_s, j - 1);
                }
            }
        }
        assert(m_new =~= expected);
    }
}

} // verus!
