//! The mathematical model of the store.
//!
//! Both tables are modelled as sequences of rows in insertion order, each row
//! carrying an integer key that the store assigned on creation. The spec
//! functions here say what every storage operation means on such a sequence:
//! looking a row up by key, removing every row with a key, and keeping the
//! rows that belong to one checklist. The lemmas state the facts about these
//! operations that the entity contracts and the library's laws rest on.

use vstd::prelude::*;
use vstd::seq_lib::group_seq_properties;

verus! {

/// The first row of `s` whose key is `id`, if any.
pub open spec fn find_by<T>(s: Seq<T>, key: spec_fn(T) -> i64, id: i64) -> Option<T>
    decreases s.len(),
{
    if s.len() == 0 {
        None
    } else if key(s[0]) == id {
        Some(s[0])
    } else {
        find_by(s.drop_first(), key, id)
    }
}

/// True when some row of `s` has key `id`.
pub open spec fn has_key<T>(s: Seq<T>, key: spec_fn(T) -> i64, id: i64) -> bool {
    exists|i: int| 0 <= i < s.len() && key(#[trigger] s[i]) == id
}

/// The predicate a row must meet to survive removal of key `id`.
pub open spec fn key_is_not<T>(key: spec_fn(T) -> i64, id: i64) -> spec_fn(T) -> bool {
    |t: T| key(t) != id
}

/// The rows of `s` whose key is not `id`, in order.
pub open spec fn remove_by<T>(s: Seq<T>, key: spec_fn(T) -> i64, id: i64) -> Seq<T> {
    s.filter(key_is_not(key, id))
}

/// Keys appear in strictly increasing order (so no key repeats).
pub open spec fn keys_increasing<T>(s: Seq<T>, key: spec_fn(T) -> i64) -> bool {
    forall|i: int, j: int|
        0 <= i < j < s.len() ==> key(#[trigger] s[i]) < key(#[trigger] s[j])
}

/// Every key lies in `[lo, hi)`.
pub open spec fn keys_in_range<T>(s: Seq<T>, key: spec_fn(T) -> i64, lo: i64, hi: i64) -> bool {
    forall|i: int| 0 <= i < s.len() ==> lo <= key(#[trigger] s[i]) < hi
}

/// A lookup misses exactly when no row carries the key.
pub proof fn lemma_find_by_absent<T>(s: Seq<T>, key: spec_fn(T) -> i64, id: i64)
    ensures
        find_by(s, key, id) is None <==> !has_key(s, key, id),
    decreases s.len(),
{
    if s.len() > 0 && key(s[0]) != id {
        lemma_find_by_absent(s.drop_first(), key, id);
        assert(has_key(s.drop_first(), key, id) ==> has_key(s, key, id)) by {
            if has_key(s.drop_first(), key, id) {
                let i = choose|i: int|
                    0 <= i < s.drop_first().len() && key(#[trigger] s.drop_first()[i]) == id;
                assert(s[i + 1] == s.drop_first()[i]);
            }
        }
        assert(has_key(s, key, id) ==> has_key(s.drop_first(), key, id)) by {
            if has_key(s, key, id) {
                let i = choose|i: int| 0 <= i < s.len() && key(#[trigger] s[i]) == id;
                assert(s.drop_first()[i - 1] == s[i]);
            }
        }
    }
}

/// A lookup that hits the first matching row returns exactly that row.
pub proof fn lemma_find_by_first_match<T>(s: Seq<T>, key: spec_fn(T) -> i64, id: i64, i: int)
    requires
        0 <= i < s.len(),
        key(s[i]) == id,
        forall|j: int| 0 <= j < i ==> key(#[trigger] s[j]) != id,
    ensures
        find_by(s, key, id) == Some(s[i]),
    decreases s.len(),
{
    if i > 0 {
        lemma_find_by_first_match(s.drop_first(), key, id, i - 1);
        assert(forall|j: int|
            0 <= j < i - 1 ==> key(#[trigger] s.drop_first()[j]) == key(s[j + 1]));
    }
}

/// A hit returns a row of `s` that carries the requested key.
pub proof fn lemma_find_by_found<T>(s: Seq<T>, key: spec_fn(T) -> i64, id: i64)
    requires
        find_by(s, key, id) is Some,
    ensures
        key(find_by(s, key, id)->Some_0) == id,
        s.contains(find_by(s, key, id)->Some_0),
    decreases s.len(),
{
    if s.len() > 0 && key(s[0]) != id {
        lemma_find_by_found(s.drop_first(), key, id);
        let t = find_by(s, key, id)->Some_0;
        let i = choose|i: int| 0 <= i < s.drop_first().len() && s.drop_first()[i] == t;
        assert(s[i + 1] == t);
    }
}

/// Appending a row changes no lookup for another key.
pub proof fn lemma_find_by_push_other<T>(s: Seq<T>, key: spec_fn(T) -> i64, id: i64, t: T)
    requires
        key(t) != id,
    ensures
        find_by(s.push(t), key, id) == find_by(s, key, id),
    decreases s.len(),
{
    if s.len() == 0 {
        assert(s.push(t)[0] == t);
        assert(s.push(t).drop_first() =~= Seq::<T>::empty());
        assert(find_by(s.push(t).drop_first(), key, id) is None);
    } else {
        assert(s.push(t)[0] == s[0]);
        assert(s.push(t).drop_first() =~= s.drop_first().push(t));
        lemma_find_by_push_other(s.drop_first(), key, id, t);
        if key(s[0]) != id {
            assert(find_by(s.push(t), key, id) == find_by(s.push(t).drop_first(), key, id));
        }
    }
}

/// Appending a row whose key is fresh makes that key find exactly that row.
pub proof fn lemma_find_by_push_new<T>(s: Seq<T>, key: spec_fn(T) -> i64, t: T)
    requires
        forall|i: int| 0 <= i < s.len() ==> key(#[trigger] s[i]) != key(t),
    ensures
        find_by(s.push(t), key, key(t)) == Some(t),
    decreases s.len(),
{
    if s.len() == 0 {
        assert(s.push(t)[0] == t);
    } else {
        assert(s.push(t)[0] == s[0]);
        assert(s.push(t).drop_first() =~= s.drop_first().push(t));
        assert(forall|i: int|
            0 <= i < s.drop_first().len() ==> key(#[trigger] s.drop_first()[i]) == key(s[i + 1]));
        lemma_find_by_push_new(s.drop_first(), key, t);
    }
}

/// When keys never repeat, looking up the key of a stored row returns
/// exactly that row.
pub proof fn lemma_find_by_contained<T>(s: Seq<T>, key: spec_fn(T) -> i64, t: T)
    requires
        keys_increasing(s, key),
        s.contains(t),
    ensures
        find_by(s, key, key(t)) == Some(t),
{
    let i = choose|i: int| 0 <= i < s.len() && s[i] == t;
    assert(forall|j: int| 0 <= j < i ==> key(#[trigger] s[j]) < key(s[i]));
    lemma_find_by_first_match(s, key, key(t), i);
}

/// Appending a row with the next fresh key keeps the keys strictly
/// increasing and inside the widened range.
pub proof fn lemma_keys_push_fresh<T>(
    s: Seq<T>,
    key: spec_fn(T) -> i64,
    t: T,
    lo: i64,
    hi: i64,
    hi2: i64,
)
    requires
        keys_increasing(s, key),
        keys_in_range(s, key, lo, hi),
        hi <= key(t) < hi2,
        lo <= key(t),
    ensures
        keys_increasing(s.push(t), key),
        keys_in_range(s.push(t), key, lo, hi2),
        forall|i: int| 0 <= i < s.len() ==> key(#[trigger] s[i]) != key(t),
{
    assert(forall|i: int| 0 <= i < s.len() ==> s.push(t)[i] == s[i]);
    assert(s.push(t)[s.len() as int] == t);
}

/// What a lookup sees after any append: an earlier match wins, then the new
/// row if its key fits, and otherwise nothing.
pub proof fn lemma_find_by_push<T>(s: Seq<T>, key: spec_fn(T) -> i64, id: i64, t: T)
    ensures
        find_by(s.push(t), key, id) == (if find_by(s, key, id) is Some {
            find_by(s, key, id)
        } else if key(t) == id {
            Some(t)
        } else {
            None::<T>
        }),
    decreases s.len(),
{
    if s.len() == 0 {
        assert(s.push(t)[0] == t);
        assert(s.push(t).drop_first() =~= Seq::<T>::empty());
        assert(find_by(s.push(t).drop_first(), key, id) is None);
    } else {
        assert(s.push(t)[0] == s[0]);
        assert(s.push(t).drop_first() =~= s.drop_first().push(t));
        lemma_find_by_push(s.drop_first(), key, id, t);
        if key(s[0]) != id {
            assert(find_by(s.push(t), key, id) == find_by(s.push(t).drop_first(), key, id));
        }
    }
}

/// Removal commutes with appending: the appended row survives exactly when
/// its key is not the removed one.
pub proof fn lemma_remove_by_push<T>(s: Seq<T>, key: spec_fn(T) -> i64, id: i64, t: T)
    ensures
        remove_by(s.push(t), key, id) == (if key(t) != id {
            remove_by(s, key, id).push(t)
        } else {
            remove_by(s, key, id)
        }),
{
    broadcast use Seq::lemma_filter_push;

}

/// After removing a key, looking it up misses.
pub proof fn lemma_remove_by_absent<T>(s: Seq<T>, key: spec_fn(T) -> i64, id: i64)
    ensures
        find_by(remove_by(s, key, id), key, id) is None,
{
    broadcast use Seq::lemma_filter_pred;

    lemma_find_by_absent(remove_by(s, key, id), key, id);
}

/// Removing one key leaves every lookup for another key unchanged.
pub proof fn lemma_remove_by_keeps_others<T>(s: Seq<T>, key: spec_fn(T) -> i64, id: i64, id2: i64)
    requires
        id2 != id,
    ensures
        find_by(remove_by(s, key, id), key, id2) == find_by(s, key, id2),
    decreases s.len(),
{
    if s.len() == 0 {
        assert(remove_by(s, key, id) =~= s) by {
            broadcast use Seq::lemma_filter_len;

        }
    } else {
        let u = s.drop_last();
        let t = s.last();
        assert(s =~= u.push(t));
        lemma_remove_by_keeps_others(u, key, id, id2);
        lemma_remove_by_push(u, key, id, t);
        lemma_find_by_push(u, key, id2, t);
        if key(t) != id {
            lemma_find_by_push(remove_by(u, key, id), key, id2, t);
        } else {
            lemma_find_by_push_other(u, key, id2, t);
        }
    }
}

/// Removal keeps the keys strictly increasing and inside their range.
pub proof fn lemma_remove_by_wf<T>(s: Seq<T>, key: spec_fn(T) -> i64, id: i64, lo: i64, hi: i64)
    requires
        keys_increasing(s, key),
        keys_in_range(s, key, lo, hi),
    ensures
        keys_increasing(remove_by(s, key, id), key),
        keys_in_range(remove_by(s, key, id), key, lo, hi),
    decreases s.len(),
{
    broadcast use group_seq_properties;

    if s.len() == 0 {
        assert(remove_by(s, key, id) =~= s) by {
            broadcast use Seq::lemma_filter_len;

        }
    } else {
        let u = s.drop_last();
        let t = s.last();
        assert(s =~= u.push(t));
        assert(forall|i: int| 0 <= i < u.len() ==> u[i] == s[i]);
        lemma_remove_by_wf(u, key, id, lo, hi);
        lemma_remove_by_push(u, key, id, t);
        let r = remove_by(u, key, id);
        if key(t) != id {
            assert forall|i: int| 0 <= i < r.len() implies key(#[trigger] r[i]) < key(t) by {
                assert(r.contains(r[i]));
                u.lemma_filter_contains_rev(key_is_not(key, id), r[i]);
                let j = choose|j: int| 0 <= j < u.len() && u[j] == r[i];
                assert(key(s[j]) < key(s[s.len() - 1]));
            }
            assert(keys_increasing(r.push(t), key)) by {
                assert(forall|i: int| 0 <= i < r.len() ==> r.push(t)[i] == r[i]);
            }
            assert(keys_in_range(r.push(t), key, lo, hi)) by {
                assert(forall|i: int| 0 <= i < r.len() ==> r.push(t)[i] == r[i]);
            }
        }
    }
}

} // verus!
