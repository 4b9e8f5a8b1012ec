//! Keyed collections of records: lookup of the first record with a key,
//! removal of every record with a key, and insert-or-replace.

use vstd::prelude::*;

use crate::types::connect::ConnectUser;
use crate::types::datafeed::{
    views, Atis, AtisView, Controller, ControllerView, Duplicate, Pilot, Prefile, Server,
};
use crate::types::CertificateId;

verus! {

/// The key by which a record is found: a CID, or a name such as a callsign
/// or a server ident.
#[derive(Debug)]
pub enum EntityKey {
    Cid(CertificateId),
    Name(String),
}

/// The mathematical value of an [`EntityKey`].
pub enum KeyView {
    Cid(u32),
    Name(Seq<char>),
}

impl View for EntityKey {
    type V = KeyView;

    open spec fn view(&self) -> KeyView {
        match self {
            EntityKey::Cid(c) => KeyView::Cid(c@),
            EntityKey::Name(n) => KeyView::Name(n@),
        }
    }
}

/// A record with a key.
pub trait Keyed: Duplicate {
    /// The key of a record's view.
    spec fn key_of(v: Self::V) -> KeyView;

    /// The record's key.
    fn key(&self) -> (k: EntityKey)
        ensures
            k@ == Self::key_of(self@),
    ;

    /// Whether the record has the given key.
    fn has_key(&self, key: &EntityKey) -> (b: bool)
        ensures
            b == (Self::key_of(self@) == key@),
    ;
}

pub(crate) fn cid_key_eq(c: CertificateId, key: &EntityKey) -> (b: bool)
    ensures
        b == (KeyView::Cid(c@) == key@),
{
    match key {
        EntityKey::Cid(k) => c.get() == k.get(),
        EntityKey::Name(_) => false,
    }
}

pub(crate) fn name_key_eq(n: &String, key: &EntityKey) -> (b: bool)
    ensures
        b == (KeyView::Name(n@) == key@),
{
    match key {
        EntityKey::Cid(_) => false,
        EntityKey::Name(k) => *n == *k,
    }
}

/// `i` is the position of the first record with key `k`.
pub open spec fn is_first_match<T: Keyed>(s: Seq<T::V>, k: KeyView, i: int) -> bool {
    &&& 0 <= i < s.len()
    &&& T::key_of(s[i]) == k
    &&& forall|j: int| 0 <= j < i ==> T::key_of(#[trigger] s[j]) != k
}

/// Some record has key `k`.
pub open spec fn has_match<T: Keyed>(s: Seq<T::V>, k: KeyView) -> bool {
    exists|i: int| 0 <= i < s.len() && T::key_of(#[trigger] s[i]) == k
}

/// The records without key `k`, in their order.
pub open spec fn without_key<T: Keyed>(s: Seq<T::V>, k: KeyView) -> Seq<T::V>
    decreases s.len(),
{
    if s.len() == 0 {
        s
    } else {
        let rest = without_key::<T>(s.drop_last(), k);
        if T::key_of(s.last()) == k {
            rest
        } else {
            rest.push(s.last())
        }
    }
}

/// The records after inserting `x`: it replaces the first record with its
/// key, or is appended when there is none.
pub open spec fn upserted<T: Keyed>(s: Seq<T::V>, x: T::V) -> Seq<T::V> {
    let k = T::key_of(x);
    if has_match::<T>(s, k) {
        s.update(choose|i: int| is_first_match::<T>(s, k, i), x)
    } else {
        s.push(x)
    }
}

/// The record with key `k`, if any: the first such.
pub open spec fn lookup<T: Keyed>(s: Seq<T::V>, k: KeyView) -> Option<T::V> {
    if has_match::<T>(s, k) {
        Some(s[choose|i: int| is_first_match::<T>(s, k, i)])
    } else {
        None
    }
}

/// At most one position is the first one with a key.
pub proof fn lemma_first_match_unique<T: Keyed>(s: Seq<T::V>, k: KeyView, i: int, j: int)
    requires
        is_first_match::<T>(s, k, i),
        is_first_match::<T>(s, k, j),
    ensures
        i == j,
{
}

/// When some record has a key, a first one has it.
pub proof fn lemma_first_match_exists<T: Keyed>(s: Seq<T::V>, k: KeyView)
    requires
        has_match::<T>(s, k),
    ensures
        exists|i: int| is_first_match::<T>(s, k, i),
    decreases s.len(),
{
    let w = choose|i: int| 0 <= i < s.len() && T::key_of(#[trigger] s[i]) == k;
    if T::key_of(s[0]) == k {
        assert(is_first_match::<T>(s, k, 0));
    } else {
        let t = s.drop_first();
        assert(t[w - 1] == s[w]);
        lemma_first_match_exists::<T>(t, k);
        let i = choose|i: int| is_first_match::<T>(t, k, i);
        assert forall|j: int| 0 <= j < i + 1 implies T::key_of(#[trigger] s[j]) != k by {
            if j > 0 {
                assert(s[j] == t[j - 1]);
            }
        }
        assert(is_first_match::<T>(s, k, i + 1));
    }
}

/// No two records share a key.
pub open spec fn keys_unique<T: Keyed>(s: Seq<T::V>) -> bool {
    forall|i: int, j: int|
        0 <= i < s.len() && 0 <= j < s.len() && i != j ==> T::key_of(#[trigger] s[i])
            != T::key_of(#[trigger] s[j])
}

/// Every record left after removing key `k` is one of the records, and none
/// of them has key `k`.
pub proof fn lemma_without_key_members<T: Keyed>(s: Seq<T::V>, k: KeyView)
    ensures
        forall|i: int|
            0 <= i < without_key::<T>(s, k).len() ==> T::key_of(
                #[trigger] without_key::<T>(s, k)[i],
            ) != k && exists|j: int| 0 <= j < s.len() && without_key::<T>(s, k)[i] == s[j],
    decreases s.len(),
{
    if s.len() > 0 {
        let t = s.drop_last();
        lemma_without_key_members::<T>(t, k);
        let w = without_key::<T>(s, k);
        let rest = without_key::<T>(t, k);
        assert forall|i: int| 0 <= i < w.len() implies T::key_of(#[trigger] w[i]) != k && exists|
            j: int,
        | 0 <= j < s.len() && w[i] == s[j] by {
            if i < rest.len() {
                assert(w[i] == rest[i]);
                let j = choose|j: int| 0 <= j < t.len() && rest[i] == t[j];
                assert(s[j] == t[j]);
            } else {
                assert(w[i] == s[s.len() - 1]);
            }
        }
    }
}

/// Removing every record with a key keeps the keys unique, as a map's
/// removal does.
pub proof fn lemma_without_key_keeps_keys_unique<T: Keyed>(s: Seq<T::V>, k: KeyView)
    requires
        keys_unique::<T>(s),
    ensures
        keys_unique::<T>(without_key::<T>(s, k)),
    decreases s.len(),
{
    if s.len() > 0 {
        let t = s.drop_last();
        assert(keys_unique::<T>(t)) by {
            assert forall|i: int, j: int|
                0 <= i < t.len() && 0 <= j < t.len() && i != j implies T::key_of(#[trigger] t[i])
                != T::key_of(#[trigger] t[j]) by {
                assert(t[i] == s[i] && t[j] == s[j]);
            }
        }
        lemma_without_key_keeps_keys_unique::<T>(t, k);
        lemma_without_key_members::<T>(t, k);
        let rest = without_key::<T>(t, k);
        let last = s.last();
        if T::key_of(last) != k {
            let w = rest.push(last);
            assert forall|i: int, j: int|
                0 <= i < w.len() && 0 <= j < w.len() && i != j implies T::key_of(#[trigger] w[i])
                != T::key_of(#[trigger] w[j]) by {
                if i < rest.len() && j < rest.len() {
                    assert(w[i] == rest[i] && w[j] == rest[j]);
                } else if i < rest.len() {
                    assert(w[i] == rest[i] && w[j] == last);
                    let m = choose|m: int| 0 <= m < t.len() && rest[i] == t[m];
                    assert(s[m] == t[m]);
                    assert(s[s.len() - 1] == last);
                } else if j < rest.len() {
                    assert(w[j] == rest[j] && w[i] == last);
                    let m = choose|m: int| 0 <= m < t.len() && rest[j] == t[m];
                    assert(s[m] == t[m]);
                    assert(s[s.len() - 1] == last);
                }
            }
        }
    }
}

/// Insert-or-replace keeps the keys unique, as a map's insertion does.
pub proof fn lemma_upserted_keeps_keys_unique<T: Keyed>(s: Seq<T::V>, x: T::V)
    requires
        keys_unique::<T>(s),
    ensures
        keys_unique::<T>(upserted::<T>(s, x)),
{
    let k = T::key_of(x);
    let u = upserted::<T>(s, x);
    if has_match::<T>(s, k) {
        lemma_first_match_exists::<T>(s, k);
        let m = choose|i: int| is_first_match::<T>(s, k, i);
        assert forall|i: int| 0 <= i < u.len() implies T::key_of(#[trigger] u[i]) == T::key_of(s[i]) by {
            if i != m {
                assert(u[i] == s[i]);
            }
        }
        assert forall|i: int, j: int|
            0 <= i < u.len() && 0 <= j < u.len() && i != j implies T::key_of(#[trigger] u[i])
            != T::key_of(#[trigger] u[j]) by {
            assert(T::key_of(u[i]) == T::key_of(s[i]));
            assert(T::key_of(u[j]) == T::key_of(s[j]));
        }
    } else {
        assert forall|i: int, j: int|
            0 <= i < u.len() && 0 <= j < u.len() && i != j implies T::key_of(#[trigger] u[i])
            != T::key_of(#[trigger] u[j]) by {
            if i < s.len() && j < s.len() {
                assert(u[i] == s[i] && u[j] == s[j]);
            } else if i < s.len() {
                assert(u[i] == s[i] && u[j] == x);
                if T::key_of(s[i]) == k {
                    assert(has_match::<T>(s, k));
                }
            } else if j < s.len() {
                assert(u[j] == s[j] && u[i] == x);
                if T::key_of(s[j]) == k {
                    assert(has_match::<T>(s, k));
                }
            }
        }
    }
}

/// Insert-or-replace and removal by key, as a map does them: the inserted
/// record is what its key then finds; inserting a second record with the
/// same key replaces the first rather than adding one; removal leaves no
/// record with the key; and a record found by a key has that key.
pub proof fn lemma_keyed_collection<T: Keyed>(s: Seq<T::V>, x: T::V, y: T::V, k: KeyView)
    ensures
        lookup::<T>(upserted::<T>(s, x), T::key_of(x)) == Some(x),
        upserted::<T>(s, x).len() == (if has_match::<T>(s, T::key_of(x)) {
            s.len()
        } else {
            s.len() + 1
        }),
        T::key_of(y) == T::key_of(x) ==> upserted::<T>(upserted::<T>(s, x), y).len()
            == upserted::<T>(s, x).len(),
        forall|i: int|
            0 <= i < without_key::<T>(s, k).len() ==> T::key_of(
                #[trigger] without_key::<T>(s, k)[i],
            ) != k,
        lookup::<T>(s, k) matches Some(v) ==> T::key_of(v) == k,
{
    let kx = T::key_of(x);
    let u = upserted::<T>(s, x);
    if has_match::<T>(s, kx) {
        lemma_first_match_exists::<T>(s, kx);
        let m = choose|i: int| is_first_match::<T>(s, kx, i);
        assert forall|j: int| 0 <= j < m implies T::key_of(#[trigger] u[j]) != kx by {
            assert(u[j] == s[j]);
        }
        assert(is_first_match::<T>(u, kx, m));
        assert(has_match::<T>(u, kx));
        let c = choose|j: int| is_first_match::<T>(u, kx, j);
        lemma_first_match_unique::<T>(u, kx, m, c);
    } else {
        lemma_lookup_push::<T>(s, x, kx);
    }
    assert(has_match::<T>(u, kx)) by {
        lemma_lookup_has_key::<T>(u, kx);
        lemma_first_match_exists::<T>(u, kx);
    }
    if T::key_of(y) == kx {
        assert(has_match::<T>(u, T::key_of(y)));
        lemma_first_match_exists::<T>(u, T::key_of(y));
    }
    lemma_without_key_members::<T>(s, k);
    if lookup::<T>(s, k) is Some {
        lemma_lookup_has_key::<T>(s, k);
    }
}

/// The position of the first record with the given key.
pub fn find_entry<T: Keyed>(v: &Vec<T>, key: &EntityKey) -> (r: Option<usize>)
    ensures
        match r {
            Some(i) => is_first_match::<T>(views(v@), key@, i as int),
            None => !has_match::<T>(views(v@), key@),
        },
{
    let mut i: usize = 0;
    while i < v.len()
        invariant
            i <= v@.len(),
            forall|j: int| 0 <= j < i ==> T::key_of(#[trigger] views(v@)[j]) != key@,
        decreases v@.len() - i,
    {
        if v[i].has_key(key) {
            return Some(i);
        }
        i = i + 1;
    }
    None
}

/// The record with the given key, if any: the first such.
pub fn get_entry<'a, T: Keyed>(v: &'a Vec<T>, key: &EntityKey) -> (r: Option<&'a T>)
    ensures
        match r {
            Some(x) => lookup::<T>(views(v@), key@) == Some(x@),
            None => lookup::<T>(views(v@), key@) is None,
        },
{
    match find_entry(v, key) {
        Some(i) => {
            proof {
                let c = choose|j: int| is_first_match::<T>(views(v@), key@, j);
                lemma_first_match_unique::<T>(views(v@), key@, i as int, c);
            }
            Some(&v[i])
        },
        None => None,
    }
}

/// A record found by a key has that key.
pub proof fn lemma_lookup_has_key<T: Keyed>(s: Seq<T::V>, k: KeyView)
    requires
        lookup::<T>(s, k) is Some,
    ensures
        T::key_of(lookup::<T>(s, k)->0) == k,
{
    lemma_first_match_exists::<T>(s, k);
}

/// A key that the record at a position has is found.
pub proof fn lemma_lookup_finds<T: Keyed>(s: Seq<T::V>, i: int)
    requires
        0 <= i < s.len(),
    ensures
        lookup::<T>(s, T::key_of(s[i])) is Some,
{
    assert(has_match::<T>(s, T::key_of(s[i])));
}

/// Looking a key up after appending a record: an earlier record with the key
/// still wins, else the new record if it has the key.
pub proof fn lemma_lookup_push<T: Keyed>(s: Seq<T::V>, y: T::V, k: KeyView)
    ensures
        lookup::<T>(s.push(y), k) == (if lookup::<T>(s, k) is Some {
            lookup::<T>(s, k)
        } else if T::key_of(y) == k {
            Some(y)
        } else {
            None
        }),
{
    let t = s.push(y);
    if has_match::<T>(s, k) {
        lemma_first_match_exists::<T>(s, k);
        let i = choose|i: int| is_first_match::<T>(s, k, i);
        assert(t[i] == s[i]);
        assert forall|j: int| 0 <= j < i implies T::key_of(#[trigger] t[j]) != k by {
            assert(t[j] == s[j]);
        }
        assert(is_first_match::<T>(t, k, i));
        assert(has_match::<T>(t, k));
        let c = choose|j: int| is_first_match::<T>(t, k, j);
        lemma_first_match_unique::<T>(t, k, i, c);
    } else if T::key_of(y) == k {
        let n = s.len() as int;
        assert(t[n] == y);
        assert forall|j: int| 0 <= j < n implies T::key_of(#[trigger] t[j]) != k by {
            assert(t[j] == s[j]);
            if T::key_of(s[j]) == k {
                assert(has_match::<T>(s, k));
            }
        }
        assert(is_first_match::<T>(t, k, n));
        assert(has_match::<T>(t, k));
        let c = choose|j: int| is_first_match::<T>(t, k, j);
        lemma_first_match_unique::<T>(t, k, n, c);
    } else {
        assert forall|j: int| 0 <= j < t.len() implies T::key_of(#[trigger] t[j]) != k by {
            if j < s.len() {
                assert(t[j] == s[j]);
                if T::key_of(s[j]) == k {
                    assert(has_match::<T>(s, k));
                }
            }
        }
    }
}

/// After an insert-or-replace, looking up the record's key gives the record.
pub proof fn lemma_lookup_upserted<T: Keyed>(s: Seq<T::V>, x: T::V)
    ensures
        lookup::<T>(upserted::<T>(s, x), T::key_of(x)) == Some(x),
{
    let k = T::key_of(x);
    if has_match::<T>(s, k) {
        lemma_first_match_exists::<T>(s, k);
        let i = choose|i: int| is_first_match::<T>(s, k, i);
        let t = s.update(i, x);
        assert forall|j: int| 0 <= j < i implies T::key_of(#[trigger] t[j]) != k by {
            assert(t[j] == s[j]);
        }
        assert(is_first_match::<T>(t, k, i));
        assert(has_match::<T>(t, k));
        let c = choose|j: int| is_first_match::<T>(t, k, j);
        lemma_first_match_unique::<T>(t, k, i, c);
    } else {
        lemma_lookup_push::<T>(s, x, k);
    }
}

/// An insert-or-replace leaves the lookup of every other key as it was.
pub proof fn lemma_lookup_upserted_other<T: Keyed>(s: Seq<T::V>, x: T::V, k: KeyView)
    requires
        k != T::key_of(x),
    ensures
        lookup::<T>(upserted::<T>(s, x), k) == lookup::<T>(s, k),
{
    let kx = T::key_of(x);
    if has_match::<T>(s, kx) {
        lemma_first_match_exists::<T>(s, kx);
        let i = choose|i: int| is_first_match::<T>(s, kx, i);
        let t = s.update(i, x);
        if has_match::<T>(s, k) {
            lemma_first_match_exists::<T>(s, k);
            let m = choose|m: int| is_first_match::<T>(s, k, m);
            assert(m != i);
            assert(t[m] == s[m]);
            assert forall|j: int| 0 <= j < m implies T::key_of(#[trigger] t[j]) != k by {
                if j != i {
                    assert(t[j] == s[j]);
                }
            }
            assert(is_first_match::<T>(t, k, m));
            assert(has_match::<T>(t, k));
            let c = choose|j: int| is_first_match::<T>(t, k, j);
            lemma_first_match_unique::<T>(t, k, m, c);
        } else {
            assert forall|j: int| 0 <= j < t.len() implies T::key_of(#[trigger] t[j]) != k by {
                if j != i {
                    assert(t[j] == s[j]);
                    if T::key_of(s[j]) == k {
                        assert(has_match::<T>(s, k));
                    }
                }
            }
        }
    } else {
        lemma_lookup_push::<T>(s, x, k);
    }
}

/// After removing a key, no record has it.
pub proof fn lemma_without_key_lacks<T: Keyed>(s: Seq<T::V>, k: KeyView)
    ensures
        !has_match::<T>(without_key::<T>(s, k), k),
        lookup::<T>(without_key::<T>(s, k), k) is None,
    decreases s.len(),
{
    if s.len() > 0 {
        let rest = without_key::<T>(s.drop_last(), k);
        lemma_without_key_lacks::<T>(s.drop_last(), k);
        if T::key_of(s.last()) != k {
            lemma_lookup_push::<T>(rest, s.last(), k);
        }
    }
}

/// Removing one key leaves the lookup of every other key as it was.
pub proof fn lemma_lookup_without_other<T: Keyed>(s: Seq<T::V>, k: KeyView, other: KeyView)
    requires
        other != k,
    ensures
        lookup::<T>(without_key::<T>(s, k), other) == lookup::<T>(s, other),
    decreases s.len(),
{
    if s.len() > 0 {
        let d = s.drop_last();
        let y = s.last();
        assert(d.push(y) =~= s);
        lemma_lookup_without_other::<T>(d, k, other);
        lemma_lookup_push::<T>(d, y, other);
        if T::key_of(y) != k {
            lemma_lookup_push::<T>(without_key::<T>(d, k), y, other);
        }
    } else {
        assert(!has_match::<T>(s, other));
    }
}

/// Inserting the same record twice leaves what inserting it once leaves.
pub proof fn lemma_upsert_idempotent<T: Keyed>(s: Seq<T::V>, x: T::V)
    ensures
        upserted::<T>(upserted::<T>(s, x), x) == upserted::<T>(s, x),
{
    let k = T::key_of(x);
    let t = upserted::<T>(s, x);
    lemma_lookup_upserted::<T>(s, x);
    assert(has_match::<T>(t, k));
    lemma_first_match_exists::<T>(t, k);
    let i = choose|i: int| is_first_match::<T>(t, k, i);
    assert(t[i] == x);
    assert(t.update(i, x) =~= t);
}

/// Removes every record with the given key, keeping the order of the rest;
/// returns whether one was removed.
pub fn remove_entries<T: Keyed>(v: &mut Vec<T>, key: &EntityKey) -> (removed: bool)
    ensures
        views(final(v)@) == without_key::<T>(views(old(v)@), key@),
        removed == has_match::<T>(views(old(v)@), key@),
{
    let ghost s = views(v@);
    let mut kept: Vec<T> = Vec::new();
    let mut removed = false;
    let mut i: usize = 0;
    while i < v.len()
        invariant
            i <= v@.len(),
            s == views(v@),
            views(kept@) == without_key::<T>(s.take(i as int), key@),
            removed == has_match::<T>(s.take(i as int), key@),
        decreases v@.len() - i,
    {
        let ghost pre = s.take(i as int);
        assert(s.take(i + 1).drop_last() == pre);
        assert(s.take(i + 1).last() == s[i as int]);
        if v[i].has_key(key) {
            removed = true;
            assert(s.take(i + 1)[i as int] == s[i as int]);
        } else {
            let ghost before = views(kept@);
            kept.push(v[i].duplicate());
            assert(views(kept@) =~= before.push(s[i as int]));
            proof {
                if has_match::<T>(s.take(i + 1), key@) {
                    let w = choose|j: int|
                        0 <= j < i + 1 && T::key_of(#[trigger] s.take(i + 1)[j]) == key@;
                    assert(s.take(i + 1)[w] == pre[w]);
                }
            }
        }
        proof {
            if has_match::<T>(pre, key@) {
                let w = choose|j: int| 0 <= j < i && T::key_of(#[trigger] pre[j]) == key@;
                assert(s.take(i + 1)[w] == pre[w]);
            }
        }
        i = i + 1;
    }
    assert(s.take(v@.len() as int) == s);
    *v = kept;
    removed
}

/// Inserts a record, replacing the first one with its key, or appending it
/// when there is none.
pub fn upsert_entry<T: Keyed>(v: &mut Vec<T>, item: T)
    ensures
        views(final(v)@) == upserted::<T>(views(old(v)@), item@),
{
    let key = item.key();
    match find_entry(v, &key) {
        Some(i) => {
            proof {
                let c = choose|j: int| is_first_match::<T>(views(v@), key@, j);
                lemma_first_match_unique::<T>(views(v@), key@, i as int, c);
            }
            let ghost before = views(v@);
            let ghost iv = item@;
            v.set(i, item);
            assert(views(v@) =~= before.update(i as int, iv));
        },
        None => {
            let ghost before = views(v@);
            let ghost iv = item@;
            v.push(item);
            assert(views(v@) =~= before.push(iv));
        },
    }
}

impl Duplicate for ConnectUser {
    fn duplicate(&self) -> (r: ConnectUser) {
        self.clone()
    }
}

impl Keyed for Pilot {
    open spec fn key_of(v: Pilot) -> KeyView {
        KeyView::Cid(v.cid@)
    }

    fn key(&self) -> (k: EntityKey) {
        EntityKey::Cid(self.cid)
    }

    fn has_key(&self, key: &EntityKey) -> (b: bool) {
        cid_key_eq(self.cid, key)
    }
}

impl Keyed for Controller {
    open spec fn key_of(v: Self::V) -> KeyView {
        KeyView::Cid(v.cid@)
    }

    fn key(&self) -> (k: EntityKey) {
        EntityKey::Cid(self.cid)
    }

    fn has_key(&self, key: &EntityKey) -> (b: bool) {
        cid_key_eq(self.cid, key)
    }
}

impl Keyed for Atis {
    open spec fn key_of(v: Self::V) -> KeyView {
        KeyView::Name(v.callsign@)
    }

    fn key(&self) -> (k: EntityKey) {
        EntityKey::Name(self.callsign.clone())
    }

    fn has_key(&self, key: &EntityKey) -> (b: bool) {
        name_key_eq(&self.callsign, key)
    }
}

impl Keyed for Server {
    open spec fn key_of(v: Server) -> KeyView {
        KeyView::Name(v.ident@)
    }

    fn key(&self) -> (k: EntityKey) {
        EntityKey::Name(self.ident.clone())
    }

    fn has_key(&self, key: &EntityKey) -> (b: bool) {
        name_key_eq(&self.ident, key)
    }
}

impl Keyed for Prefile {
    open spec fn key_of(v: Prefile) -> KeyView {
        KeyView::Cid(v.cid@)
    }

    fn key(&self) -> (k: EntityKey) {
        EntityKey::Cid(self.cid)
    }

    fn has_key(&self, key: &EntityKey) -> (b: bool) {
        cid_key_eq(self.cid, key)
    }
}

impl Keyed for ConnectUser {
    open spec fn key_of(v: ConnectUser) -> KeyView {
        KeyView::Cid(v.cid@)
    }

    fn key(&self) -> (k: EntityKey) {
        EntityKey::Cid(self.cid)
    }

    fn has_key(&self, key: &EntityKey) -> (b: bool) {
        cid_key_eq(self.cid, key)
    }
}

/// Pilots are keyed by CID: upserting one makes it what its
/// CID finds; upserting another with the same CID replaces it
/// rather than adding one; a CID finds something exactly when some
/// record has it, and what it finds has it; removing by a CID leaves
/// no record with it.
pub proof fn lemma_pilot_keyed(s: Seq<Pilot>, x: Pilot, y: Pilot, key: u32)
    ensures
        lookup::<Pilot>(upserted::<Pilot>(s, x), KeyView::Cid(x.cid@)) == Some(x),
        x.cid@ == y.cid@ ==> upserted::<Pilot>(upserted::<Pilot>(s, x), y).len()
            == upserted::<Pilot>(s, x).len(),
        has_match::<Pilot>(s, KeyView::Cid(key)) <==> exists|i: int|
            0 <= i < s.len() && (#[trigger] s[i]).cid@ == key,
        lookup::<Pilot>(s, KeyView::Cid(key)) matches Some(v) ==> v.cid@ == key,
        forall|i: int|
            0 <= i < without_key::<Pilot>(s, KeyView::Cid(key)).len() ==> (
            #[trigger] without_key::<Pilot>(s, KeyView::Cid(key))[i]).cid@ != key,
{
    lemma_keyed_collection::<Pilot>(s, x, y, KeyView::Cid(key));
    assert(has_match::<Pilot>(s, KeyView::Cid(key)) <==> exists|i: int|
        0 <= i < s.len() && (#[trigger] s[i]).cid@ == key);
}

/// Controllers are keyed by CID: upserting one makes it what its
/// CID finds; upserting another with the same CID replaces it
/// rather than adding one; a CID finds something exactly when some
/// record has it, and what it finds has it; removing by a CID leaves
/// no record with it.
pub proof fn lemma_controller_keyed(s: Seq<ControllerView>, x: ControllerView, y: ControllerView, key: u32)
    ensures
        lookup::<Controller>(upserted::<Controller>(s, x), KeyView::Cid(x.cid@)) == Some(x),
        x.cid@ == y.cid@ ==> upserted::<Controller>(upserted::<Controller>(s, x), y).len()
            == upserted::<Controller>(s, x).len(),
        has_match::<Controller>(s, KeyView::Cid(key)) <==> exists|i: int|
            0 <= i < s.len() && (#[trigger] s[i]).cid@ == key,
        lookup::<Controller>(s, KeyView::Cid(key)) matches Some(v) ==> v.cid@ == key,
        forall|i: int|
            0 <= i < without_key::<Controller>(s, KeyView::Cid(key)).len() ==> (
            #[trigger] without_key::<Controller>(s, KeyView::Cid(key))[i]).cid@ != key,
{
    lemma_keyed_collection::<Controller>(s, x, y, KeyView::Cid(key));
    assert(has_match::<Controller>(s, KeyView::Cid(key)) <==> exists|i: int|
        0 <= i < s.len() && (#[trigger] s[i]).cid@ == key);
}

/// ATIS stations are keyed by callsign: upserting one makes it what its
/// callsign finds; upserting another with the same callsign replaces it
/// rather than adding one; a callsign finds something exactly when some
/// record has it, and what it finds has it; removing by a callsign leaves
/// no record with it.
pub proof fn lemma_atis_keyed(s: Seq<AtisView>, x: AtisView, y: AtisView, key: Seq<char>)
    ensures
        lookup::<Atis>(upserted::<Atis>(s, x), KeyView::Name(x.callsign@)) == Some(x),
        x.callsign@ == y.callsign@ ==> upserted::<Atis>(upserted::<Atis>(s, x), y).len()
            == upserted::<Atis>(s, x).len(),
        has_match::<Atis>(s, KeyView::Name(key)) <==> exists|i: int|
            0 <= i < s.len() && (#[trigger] s[i]).callsign@ == key,
        lookup::<Atis>(s, KeyView::Name(key)) matches Some(v) ==> v.callsign@ == key,
        forall|i: int|
            0 <= i < without_key::<Atis>(s, KeyView::Name(key)).len() ==> (
            #[trigger] without_key::<Atis>(s, KeyView::Name(key))[i]).callsign@ != key,
{
    lemma_keyed_collection::<Atis>(s, x, y, KeyView::Name(key));
    assert(has_match::<Atis>(s, KeyView::Name(key)) <==> exists|i: int|
        0 <= i < s.len() && (#[trigger] s[i]).callsign@ == key);
}

/// Servers are keyed by ident: upserting one makes it what its
/// ident finds; upserting another with the same ident replaces it
/// rather than adding one; a ident finds something exactly when some
/// record has it, and what it finds has it; removing by a ident leaves
/// no record with it.
pub proof fn lemma_server_keyed(s: Seq<Server>, x: Server, y: Server, key: Seq<char>)
    ensures
        lookup::<Server>(upserted::<Server>(s, x), KeyView::Name(x.ident@)) == Some(x),
        x.ident@ == y.ident@ ==> upserted::<Server>(upserted::<Server>(s, x), y).len()
            == upserted::<Server>(s, x).len(),
        has_match::<Server>(s, KeyView::Name(key)) <==> exists|i: int|
            0 <= i < s.len() && (#[trigger] s[i]).ident@ == key,
        lookup::<Server>(s, KeyView::Name(key)) matches Some(v) ==> v.ident@ == key,
        forall|i: int|
            0 <= i < without_key::<Server>(s, KeyView::Name(key)).len() ==> (
            #[trigger] without_key::<Server>(s, KeyView::Name(key))[i]).ident@ != key,
{
    lemma_keyed_collection::<Server>(s, x, y, KeyView::Name(key));
    assert(has_match::<Server>(s, KeyView::Name(key)) <==> exists|i: int|
        0 <= i < s.len() && (#[trigger] s[i]).ident@ == key);
}

/// Prefiles are keyed by CID: upserting one makes it what its
/// CID finds; upserting another with the same CID replaces it
/// rather than adding one; a CID finds something exactly when some
/// record has it, and what it finds has it; removing by a CID leaves
/// no record with it.
pub proof fn lemma_prefile_keyed(s: Seq<Prefile>, x: Prefile, y: Prefile, key: u32)
    ensures
        lookup::<Prefile>(upserted::<Prefile>(s, x), KeyView::Cid(x.cid@)) == Some(x),
        x.cid@ == y.cid@ ==> upserted::<Prefile>(upserted::<Prefile>(s, x), y).len()
            == upserted::<Prefile>(s, x).len(),
        has_match::<Prefile>(s, KeyView::Cid(key)) <==> exists|i: int|
            0 <= i < s.len() && (#[trigger] s[i]).cid@ == key,
        lookup::<Prefile>(s, KeyView::Cid(key)) matches Some(v) ==> v.cid@ == key,
        forall|i: int|
            0 <= i < without_key::<Prefile>(s, KeyView::Cid(key)).len() ==> (
            #[trigger] without_key::<Prefile>(s, KeyView::Cid(key))[i]).cid@ != key,
{
    lemma_keyed_collection::<Prefile>(s, x, y, KeyView::Cid(key));
    assert(has_match::<Prefile>(s, KeyView::Cid(key)) <==> exists|i: int|
        0 <= i < s.len() && (#[trigger] s[i]).cid@ == key);
}

/// Connect users are keyed by CID: upserting one makes it what its
/// CID finds; upserting another with the same CID replaces it
/// rather than adding one; a CID finds something exactly when some
/// record has it, and what it finds has it; removing by a CID leaves
/// no record with it.
pub proof fn lemma_connectuser_keyed(s: Seq<ConnectUser>, x: ConnectUser, y: ConnectUser, key: u32)
    ensures
        lookup::<ConnectUser>(upserted::<ConnectUser>(s, x), KeyView::Cid(x.cid@)) == Some(x),
        x.cid@ == y.cid@ ==> upserted::<ConnectUser>(upserted::<ConnectUser>(s, x), y).len()
            == upserted::<ConnectUser>(s, x).len(),
        has_match::<ConnectUser>(s, KeyView::Cid(key)) <==> exists|i: int|
            0 <= i < s.len() && (#[trigger] s[i]).cid@ == key,
        lookup::<ConnectUser>(s, KeyView::Cid(key)) matches Some(v) ==> v.cid@ == key,
        forall|i: int|
            0 <= i < without_key::<ConnectUser>(s, KeyView::Cid(key)).len() ==> (
            #[trigger] without_key::<ConnectUser>(s, KeyView::Cid(key))[i]).cid@ != key,
{
    lemma_keyed_collection::<ConnectUser>(s, x, y, KeyView::Cid(key));
    assert(has_match::<ConnectUser>(s, KeyView::Cid(key)) <==> exists|i: int|
        0 <= i < s.len() && (#[trigger] s[i]).cid@ == key);
}

} // verus!
