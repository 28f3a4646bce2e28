//! Records identified by a text key, kept in a `Vec` in insertion order.
//!
//! The managers of this crate store their records this way: a lookup
//! returns the last record with the key, an upsert overwrites a record in
//! place or appends a new one, and a removal drops every record with the key.
use vstd::prelude::*;

verus! {

/// A record with a text key.
pub trait Keyed {
    spec fn key(&self) -> Seq<char>;

    fn key_text(&self) -> (r: &String)
        ensures
            r@ == self.key(),
    ;
}

/// Index of the last record of `s` with key `k`, or -1 if there is none.
pub open spec fn index_of<T: Keyed>(s: Seq<T>, k: Seq<char>) -> int
    decreases s.len(),
{
    if s.len() == 0 {
        -1
    } else if s.last().key() == k {
        s.len() - 1
    } else {
        index_of(s.drop_last(), k)
    }
}

/// The record that a lookup of `k` finds in `s`.
pub open spec fn entry_for<T: Keyed>(s: Seq<T>, k: Seq<char>) -> Option<T> {
    if index_of(s, k) >= 0 {
        Some(s[index_of(s, k)])
    } else {
        None
    }
}

pub open spec fn has_key<T: Keyed>(s: Seq<T>, k: Seq<char>) -> bool {
    exists|i: int| 0 <= i < s.len() && #[trigger] s[i].key() == k
}

/// No two records share a key.
pub open spec fn keys_unique<T: Keyed>(s: Seq<T>) -> bool {
    forall|i: int, j: int| 0 <= i < j < s.len() ==> #[trigger] s[i].key() != #[trigger] s[j].key()
}

/// `s` with `e` stored under its key: the record found for that key is
/// replaced in place, or `e` is appended when there is none.
pub open spec fn upsert<T: Keyed>(s: Seq<T>, e: T) -> Seq<T> {
    if index_of(s, e.key()) >= 0 {
        s.update(index_of(s, e.key()), e)
    } else {
        s.push(e)
    }
}

/// `s` without any record keyed `k`, the others in their order.
pub open spec fn without_key<T: Keyed>(s: Seq<T>, k: Seq<char>) -> Seq<T> {
    s.filter(key_differs(k))
}

pub open spec fn key_differs<T: Keyed>(k: Seq<char>) -> spec_fn(T) -> bool {
    |x: T| x.key() != k
}

/// `index_of` is the last position holding the key.
pub proof fn lemma_index_of<T: Keyed>(s: Seq<T>, k: Seq<char>)
    ensures
        -1 <= index_of(s, k) < s.len(),
        index_of(s, k) >= 0 ==> s[index_of(s, k)].key() == k,
        index_of(s, k) < 0 <==> !has_key(s, k),
        forall|j: int| index_of(s, k) < j < s.len() ==> #[trigger] s[j].key() != k,
    decreases s.len(),
{
    if s.len() > 0 {
        lemma_index_of(s.drop_last(), k);
        if s.last().key() != k {
            assert forall|j: int| index_of(s, k) < j < s.len() implies #[trigger] s[j].key() != k by {
                if j < s.len() - 1 {
                    assert(s[j] == s.drop_last()[j]);
                }
            }
            if has_key(s, k) {
                let j = choose|j: int| 0 <= j < s.len() && #[trigger] s[j].key() == k;
                assert(s.drop_last()[j].key() == k);
            }
            if has_key(s.drop_last(), k) {
                let j = choose|j: int| 0 <= j < s.drop_last().len() && #[trigger] s.drop_last()[j].key() == k;
                assert(s[j].key() == k);
            }
        }
    }
}

/// A position holding the key with none after it is `index_of`.
pub proof fn lemma_index_of_is<T: Keyed>(s: Seq<T>, k: Seq<char>, i: int)
    requires
        0 <= i < s.len(),
        s[i].key() == k,
        forall|j: int| i < j < s.len() ==> #[trigger] s[j].key() != k,
    ensures
        index_of(s, k) == i,
{
    lemma_index_of(s, k);
}

/// After an upsert, the key of `e` finds `e` and every other key finds what
/// it found before; unique keys stay unique.
pub proof fn lemma_upsert<T: Keyed>(s: Seq<T>, e: T, k: Seq<char>)
    requires
        keys_unique(s),
    ensures
        keys_unique(upsert(s, e)),
        entry_for(upsert(s, e), k) == if k == e.key() {
            Some(e)
        } else {
            entry_for(s, k)
        },
        has_key(s, e.key()) ==> upsert(s, e).len() == s.len(),
        !has_key(s, e.key()) ==> upsert(s, e).len() == s.len() + 1,
        has_key(upsert(s, e), e.key()),
{
    let u = upsert(s, e);
    let ek = e.key();
    lemma_index_of(s, ek);
    lemma_index_of(s, k);
    let i = index_of(s, ek);
    if i >= 0 {
        assert forall|a: int, b: int| 0 <= a < b < u.len() implies #[trigger] u[a].key() != #[trigger] u[b].key() by {
            if a == i {
                assert(s[b].key() != s[i].key());
            } else if b == i {
                assert(s[a].key() != s[i].key());
            }
        }
        assert(u[i] == e);
        if k == ek {
            lemma_index_of_is(u, k, i);
        } else {
            let m = index_of(s, k);
            if m >= 0 {
                assert(u[m] == s[m]);
                lemma_index_of_is(u, k, m);
            } else {
                lemma_index_of(u, k);
                if has_key(u, k) {
                    let j = choose|j: int| 0 <= j < u.len() && #[trigger] u[j].key() == k;
                    assert(s[j].key() == k);
                }
            }
        }
    } else {
        assert forall|a: int, b: int| 0 <= a < b < u.len() implies #[trigger] u[a].key() != #[trigger] u[b].key() by {
            if b == s.len() {
                assert(s[a].key() != ek);
            }
        }
        let n = s.len() as int;
        assert(u[n] == e);
        if k == ek {
            lemma_index_of_is(u, k, n);
        } else {
            assert(u.drop_last() =~= s);
        }
    }
}

/// Position of the last record of `v` keyed `k`.
pub fn find_key<T: Keyed>(v: &Vec<T>, k: &String) -> (r: Option<usize>)
    ensures
        match r {
            Some(i) => i as int == index_of(v@, k@) && i < v@.len(),
            None => index_of(v@, k@) == -1,
        },
{
    let mut i: usize = v.len();
    while i > 0
        invariant
            i <= v@.len(),
            forall|j: int| i <= j < v@.len() ==> #[trigger] v@[j].key() != k@,
        decreases i,
    {
        if v[i - 1].key_text().eq(k) {
            proof {
                lemma_index_of_is(v@, k@, i - 1);
            }
            return Some(i - 1);
        }
        i = i - 1;
    }
    proof {
        lemma_index_of(v@, k@);
        if has_key(v@, k@) {
            let j = choose|j: int| 0 <= j < v@.len() && #[trigger] v@[j].key() == k@;
        }
    }
    None
}

/// The record of `v` that a lookup of `k` finds.
pub fn lookup<'a, T: Keyed>(v: &'a Vec<T>, k: &String) -> (r: Option<&'a T>)
    ensures
        match r {
            Some(x) => entry_for(v@, k@) == Some(*x),
            None => entry_for(v@, k@) == None::<T>,
        },
{
    match find_key(v, k) {
        Some(i) => Some(&v[i]),
        None => None,
    }
}

/// Stores `e` under its key (see `upsert`).
pub fn upsert_into<T: Keyed>(v: &mut Vec<T>, e: T)
    ensures
        final(v)@ == upsert(old(v)@, e),
{
    let found = find_key(v, e.key_text());
    match found {
        Some(i) => {
            v.set(i, e);
        },
        None => {
            v.push(e);
        },
    }
}

/// Drops every record keyed `k`, keeping the others in order.
pub fn remove_key<T: Keyed>(v: &mut Vec<T>, k: &String)
    ensures
        final(v)@ == without_key(old(v)@, k@),
{
    let ghost s = v@;
    let ghost mut j: int = 0;
    let mut i: usize = 0;
    while i < v.len()
        invariant
            0 <= i <= j <= s.len(),
            i <= v@.len(),
            v@.len() - i == s.len() - j,
            v@.subrange(0, i as int) == s.subrange(0, j).filter(key_differs::<T>(k@)),
            v@.subrange(i as int, v@.len() as int) == s.subrange(j, s.len() as int),
        decreases v@.len() - i,
    {
        proof {
            assert(v@[i as int] == s[j]) by {
                assert(v@.subrange(i as int, v@.len() as int)[0] == s.subrange(j, s.len() as int)[0]);
            }
            assert(s.subrange(0, j + 1).drop_last() =~= s.subrange(0, j));
            reveal(Seq::filter);
        }
        if v[i].key_text().eq(k) {
            let ghost before = v@;
            v.remove(i);
            proof {
                assert(v@.subrange(0, i as int) =~= before.subrange(0, i as int));
                assert(s[j].key() == k@);
                assert(!key_differs::<T>(k@)(s[j]));
                assert(s.subrange(0, j + 1).filter(key_differs::<T>(k@)) == s.subrange(0, j).filter(key_differs::<T>(k@)));
                assert forall|t: int| 0 <= t < v@.len() - i implies v@.subrange(i as int, v@.len() as int)[t]
                    == s.subrange(j + 1, s.len() as int)[t] by {
                    assert(before.subrange(i as int, before.len() as int)[t + 1] == s.subrange(j, s.len() as int)[t + 1]);
                }
                assert(v@.subrange(i as int, v@.len() as int) =~= s.subrange(j + 1, s.len() as int));
                j = j + 1;
            }
        } else {
            let ghost before = v@;
            i = i + 1;
            proof {
                assert(key_differs::<T>(k@)(s[j]));
                assert(s.subrange(0, j + 1).filter(key_differs::<T>(k@)) == s.subrange(0, j).filter(key_differs::<T>(k@)).push(s[j]));
                assert(v@.subrange(0, i as int) =~= before.subrange(0, i - 1).push(s[j]));
                assert forall|t: int| 0 <= t < v@.len() - i implies v@.subrange(i as int, v@.len() as int)[t]
                    == s.subrange(j + 1, s.len() as int)[t] by {
                    assert(before.subrange(i - 1, before.len() as int)[t + 1] == s.subrange(j, s.len() as int)[t + 1]);
                }
                assert(v@.subrange(i as int, v@.len() as int) =~= s.subrange(j + 1, s.len() as int));
                j = j + 1;
            }
        }
    }
    proof {
        assert(s.subrange(j, s.len() as int).len() == 0);
        assert(j == s.len());
        assert(s.subrange(0, j) =~= s);
        assert(v@.subrange(0, i as int) =~= v@);
    }
}

/// Index of the first record of `s` with key `k`, or -1 if there is none.
pub open spec fn first_index_of<T: Keyed>(s: Seq<T>, k: Seq<char>) -> int
    decreases s.len(),
{
    if s.len() == 0 {
        -1
    } else if s[0].key() == k {
        0
    } else {
        let r = first_index_of(s.subrange(1, s.len() as int), k);
        if r < 0 {
            -1
        } else {
            r + 1
        }
    }
}

proof fn lemma_first_index_of_is<T: Keyed>(s: Seq<T>, k: Seq<char>, i: int)
    requires
        -1 <= i < s.len(),
        i >= 0 ==> s[i].key() == k,
        forall|j: int| 0 <= j < s.len() && (i < 0 || j < i) ==> #[trigger] s[j].key() != k,
    ensures
        first_index_of(s, k) == i,
    decreases s.len(),
{
    if s.len() > 0 && i != 0 {
        let t = s.subrange(1, s.len() as int);
        assert(s[0].key() != k);
        assert forall|j: int| 0 <= j < t.len() && (i - 1 < 0 || j < i - 1) implies #[trigger] t[j].key() != k by {
            assert(t[j] == s[j + 1]);
        }
        if i > 0 {
            lemma_first_index_of_is(t, k, i - 1);
        } else {
            lemma_first_index_of_is(t, k, -1);
        }
    }
}

/// Position of the first record of `v` keyed `k`.
pub fn find_first_key<T: Keyed>(v: &Vec<T>, k: &String) -> (r: Option<usize>)
    ensures
        match r {
            Some(i) => i as int == first_index_of(v@, k@) && i < v@.len(),
            None => first_index_of(v@, k@) == -1,
        },
{
    let mut i: usize = 0;
    while i < v.len()
        invariant
            i <= v@.len(),
            forall|j: int| 0 <= j < i ==> #[trigger] v@[j].key() != k@,
        decreases v@.len() - i,
    {
        if v[i].key_text().eq(k) {
            proof {
                lemma_first_index_of_is(v@, k@, i as int);
            }
            return Some(i);
        }
        i = i + 1;
    }
    proof {
        lemma_first_index_of_is(v@, k@, -1);
    }
    None
}

/// `new` is `old` with only the record found for `k` changed, and changed
/// as `rel` says; when `k` is absent nothing changes.
pub open spec fn changed_at_key<T: Keyed>(old: Seq<T>, new: Seq<T>, k: Seq<char>, rel: spec_fn(T, T) -> bool) -> bool {
    if index_of(old, k) >= 0 {
        &&& new.len() == old.len()
        &&& forall|j: int| 0 <= j < old.len() && j != index_of(old, k) ==> #[trigger] new[j] == old[j]
        &&& rel(old[index_of(old, k)], new[index_of(old, k)])
    } else {
        new == old
    }
}

/// Replacing a record by one with the same key keeps keys unique.
pub proof fn lemma_update_same_key<T: Keyed>(s: Seq<T>, i: int, x: T)
    requires
        keys_unique(s),
        0 <= i < s.len(),
        x.key() == s[i].key(),
    ensures
        keys_unique(s.update(i, x)),
{
    let u = s.update(i, x);
    assert forall|a: int, b: int| 0 <= a < b < u.len() implies #[trigger] u[a].key() != #[trigger] u[b].key() by {
        assert(s[a].key() != s[b].key());
    }
}

/// Removing records never lengthens a sequence.
pub proof fn lemma_without_key_len<T: Keyed>(s: Seq<T>, k: Seq<char>)
    ensures
        without_key(s, k).len() <= s.len(),
{
    s.lemma_filter_len(key_differs(k));
}

/// Every key of `s` is in `ks`.
pub open spec fn keys_within<T: Keyed>(s: Seq<T>, ks: Set<Seq<char>>) -> bool {
    forall|i: int| 0 <= i < s.len() ==> ks.contains(#[trigger] s[i].key())
}

/// Appends `e`, whose key is not among the keys `ks` that the records already have.
pub fn push_new<T: Keyed>(v: &mut Vec<T>, e: T, ks: Ghost<Set<Seq<char>>>)
    requires
        keys_unique(old(v)@),
        keys_within(old(v)@, ks@),
        !ks@.contains(e.key()),
    ensures
        final(v)@ == old(v)@.push(e),
        keys_unique(final(v)@),
        keys_within(final(v)@, ks@.insert(e.key())),
{
    let ghost before = v@;
    let ghost k = e.key();
    v.push(e);
    proof {
        assert forall|i: int, j: int| 0 <= i < j < v@.len() implies #[trigger] v@[i].key() != #[trigger] v@[j].key() by {
            assert(v@[i] == before[i]);
            if j < before.len() {
                assert(v@[j] == before[j]);
            } else {
                assert(ks@.contains(before[i].key()));
            }
        }
        assert forall|i: int| 0 <= i < v@.len() implies ks@.insert(k).contains(#[trigger] v@[i].key()) by {
            if i < before.len() {
                assert(v@[i] == before[i]);
            }
        }
    }
}

} // verus!
