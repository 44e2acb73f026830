//! Sequences kept in the order of a key.
//!
//! Rows are ranked by a key of three integers, compared lexicographically.
//! A sequence is sorted when every element's key is strictly below the keys
//! of the elements after it; the slot of a key is where an element with that
//! key goes.

use vstd::prelude::*;

verus! {

/// A ranking key: three integers, the first the most significant.
pub type Key = (int, int, int);

/// Whether key `a` ranks strictly before key `b`.
pub open spec fn key_lt(a: Key, b: Key) -> bool {
    a.0 < b.0 || (a.0 == b.0 && (a.1 < b.1 || (a.1 == b.1 && a.2 < b.2)))
}

/// Whether the elements of `s` stand in strictly ascending order of key.
pub open spec fn sorted_by_key<A>(s: Seq<A>, key: spec_fn(A) -> Key) -> bool {
    forall|i: int, j: int| 0 <= i < j < s.len() ==> key_lt(#[trigger] key(s[i]), #[trigger] key(s[j]))
}

/// The first index at or after `from` whose element does not rank before
/// `k`, or the length of `s` where every element does.
pub open spec fn slot_from<A>(s: Seq<A>, key: spec_fn(A) -> Key, k: Key, from: int) -> int
    decreases s.len() - from,
{
    if from < 0 || from >= s.len() || !key_lt(key(s[from]), k) {
        from
    } else {
        slot_from(s, key, k, from + 1)
    }
}

/// Where an element with key `k` goes in `s`.
pub open spec fn slot<A>(s: Seq<A>, key: spec_fn(A) -> Key, k: Key) -> int {
    slot_from(s, key, k, 0)
}

/// `s` with `x` put in at its slot.
pub open spec fn insert_in_order<A>(s: Seq<A>, key: spec_fn(A) -> Key, x: A) -> Seq<A> {
    s.insert(slot(s, key, key(x)), x)
}

/// Whether no element of `s` has the key `k`.
pub open spec fn key_is_new<A>(s: Seq<A>, key: spec_fn(A) -> Key, k: Key) -> bool {
    forall|i: int| 0 <= i < s.len() ==> #[trigger] key(s[i]) != k
}

/// The slot lies within the sequence; all elements from `from` up to it
/// rank before `k`, and the element at the slot does not.
pub proof fn lemma_slot_from<A>(s: Seq<A>, key: spec_fn(A) -> Key, k: Key, from: int)
    requires
        0 <= from <= s.len(),
    ensures
        from <= slot_from(s, key, k, from) <= s.len(),
        forall|i: int| from <= i < slot_from(s, key, k, from) ==> key_lt(#[trigger] key(s[i]), k),
        slot_from(s, key, k, from) < s.len() ==> !key_lt(key(s[slot_from(s, key, k, from)]), k),
    decreases s.len() - from,
{
    if from < s.len() && key_lt(key(s[from]), k) {
        lemma_slot_from(s, key, k, from + 1);
    }
}

/// Putting an element with a new key in at its slot keeps the order.
pub proof fn lemma_insert_in_order<A>(s: Seq<A>, key: spec_fn(A) -> Key, x: A)
    requires
        sorted_by_key(s, key),
        key_is_new(s, key, key(x)),
    ensures
        sorted_by_key(insert_in_order(s, key, x), key),
        0 <= slot(s, key, key(x)) <= s.len(),
{
    let k = key(x);
    let at = slot(s, key, k);
    lemma_slot_from(s, key, k, 0);
    let r = s.insert(at, x);
    assert forall|i: int, j: int| 0 <= i < j < r.len() implies key_lt(
        #[trigger] key(r[i]),
        #[trigger] key(r[j]),
    ) by {
        if j < at {
            assert(r[i] == s[i] && r[j] == s[j]);
        } else if j == at {
            assert(r[i] == s[i]);
            assert(key_lt(key(s[i]), k));
        } else if i < at {
            assert(r[i] == s[i] && r[j] == s[j - 1]);
            if i == j - 1 {
            }
        } else if i == at {
            assert(r[j] == s[j - 1]);
            assert(!key_lt(key(s[at]), k));
            assert(key(s[at]) != k);
            assert(key_lt(k, key(s[at])));
            if j - 1 > at {
                assert(key_lt(key(s[at]), key(s[j - 1])));
            }
        } else {
            assert(r[i] == s[i - 1] && r[j] == s[j - 1]);
        }
    }
}

/// Taking an element out keeps the order.
pub proof fn lemma_remove_keeps_order<A>(s: Seq<A>, key: spec_fn(A) -> Key, at: int)
    requires
        sorted_by_key(s, key),
        0 <= at < s.len(),
    ensures
        sorted_by_key(s.remove(at), key),
{
    let r = s.remove(at);
    assert forall|i: int, j: int| 0 <= i < j < r.len() implies key_lt(
        #[trigger] key(r[i]),
        #[trigger] key(r[j]),
    ) by {
        let a = if i < at {
            i
        } else {
            i + 1
        };
        let b = if j < at {
            j
        } else {
            j + 1
        };
        assert(r[i] == s[a] && r[j] == s[b]);
    }
}

/// Keeping only the elements that satisfy a predicate keeps the order.
pub proof fn lemma_filter_keeps_order<A>(
    s: Seq<A>,
    key: spec_fn(A) -> Key,
    pred: spec_fn(A) -> bool,
)
    requires
        sorted_by_key(s, key),
    ensures
        sorted_by_key(s.filter(pred), key),
    decreases s.len(),
{
    if s.len() > 0 {
        let init = s.drop_last();
        assert forall|i: int, j: int| 0 <= i < j < init.len() implies key_lt(
            #[trigger] key(init[i]),
            #[trigger] key(init[j]),
        ) by {
            assert(init[i] == s[i] && init[j] == s[j]);
        }
        lemma_filter_keeps_order(init, key, pred);
        let f = s.filter(pred);
        let g = init.filter(pred);
        assert(init.push(s.last()) =~= s);
        init.lemma_filter_push(s.last(), pred);
        if pred(s.last()) {
            assert(f == g.push(s.last()));
            assert forall|i: int, j: int| 0 <= i < j < f.len() implies key_lt(
                #[trigger] key(f[i]),
                #[trigger] key(f[j]),
            ) by {
                if j < g.len() {
                    assert(f[i] == g[i] && f[j] == g[j]);
                } else {
                    assert(f[i] == g[i]);
                    assert(g.contains(g[i]));
                    init.lemma_filter_contains_rev(pred, g[i]);
                    let m = choose|m: int| 0 <= m < init.len() && init[m] == g[i];
                    assert(s[m] == g[i]);
                    assert(key_lt(key(s[m]), key(s[s.len() - 1])));
                }
            }
        }
    }
}

/// A page of a listing: at most `limit` elements after skipping `offset`.
/// A negative limit means no limit; a negative offset means none.
pub open spec fn page<A>(s: Seq<A>, limit: int, offset: int) -> Seq<A> {
    let lo = if offset < 0 {
        0
    } else if offset > s.len() {
        s.len() as int
    } else {
        offset
    };
    let hi = if limit < 0 || lo + limit > s.len() {
        s.len() as int
    } else {
        lo + limit
    };
    s.subrange(lo, hi)
}

/// Two pages of `n` elements, one after the other, are the one page of
/// `2 * n` elements.
pub proof fn lemma_pages_concat<A>(s: Seq<A>, n: int)
    requires
        0 <= n,
    ensures
        page(s, n, 0) + page(s, n, n) == page(s, 2 * n, 0),
{
    assert(page(s, n, 0) + page(s, n, n) =~= page(s, 2 * n, 0));
}

/// Whether some element of `s` carries the tag `k`.
pub open spec fn has_tag<A, K>(s: Seq<A>, tag: spec_fn(A) -> Option<K>, k: K) -> bool {
    exists|i: int| 0 <= i < s.len() && #[trigger] tag(s[i]) == Some(k)
}

/// Whether no tag is carried by two elements of `s`.
pub open spec fn distinct_tags<A, K>(s: Seq<A>, tag: spec_fn(A) -> Option<K>) -> bool {
    forall|i: int, j: int|
        0 <= i < j < s.len() && (#[trigger] tag(s[i])) is Some ==> tag(s[i]) != #[trigger] tag(s[j])
}

/// The position of an element that carries the tag `k`.
pub open spec fn tag_index<A, K>(s: Seq<A>, tag: spec_fn(A) -> Option<K>, k: K) -> int {
    choose|i: int| 0 <= i < s.len() && #[trigger] tag(s[i]) == Some(k)
}

/// Where a tag is carried, its position is in range and carries it; where
/// tags are distinct, it is the only such position.
pub proof fn lemma_tag_index<A, K>(s: Seq<A>, tag: spec_fn(A) -> Option<K>, k: K)
    requires
        has_tag(s, tag, k),
    ensures
        0 <= tag_index(s, tag, k) < s.len(),
        tag(s[tag_index(s, tag, k)]) == Some(k),
        distinct_tags(s, tag) ==> forall|i: int|
            0 <= i < s.len() && #[trigger] tag(s[i]) == Some(k) ==> i == tag_index(s, tag, k),
{
    let at = tag_index(s, tag, k);
    if distinct_tags(s, tag) {
        assert forall|i: int| 0 <= i < s.len() && #[trigger] tag(s[i]) == Some(k) implies i
            == at by {
            if i < at {
                assert(tag(s[i]) != tag(s[at]));
            } else if at < i {
                assert(tag(s[at]) != tag(s[i]));
            }
        }
    }
}

/// What `s` holds after `x` is put in at `at`: `x` and what it held.
pub proof fn lemma_insert_contains<A>(s: Seq<A>, at: int, x: A)
    requires
        0 <= at <= s.len(),
    ensures
        forall|y: A| #[trigger] s.insert(at, x).contains(y) <==> (y == x || s.contains(y)),
{
    let r = s.insert(at, x);
    assert forall|y: A| #[trigger] r.contains(y) <==> (y == x || s.contains(y)) by {
        if r.contains(y) {
            let i = choose|i: int| 0 <= i < r.len() && r[i] == y;
            if i < at {
                assert(s[i] == y);
            } else if i > at {
                assert(s[i - 1] == y);
            }
        }
        if y == x {
            assert(r[at] == y);
        }
        if s.contains(y) {
            let i = choose|i: int| 0 <= i < s.len() && s[i] == y;
            if i < at {
                assert(r[i] == y);
            } else {
                assert(r[i + 1] == y);
            }
        }
    }
}

/// What `s` holds after the element at `at` is taken out: nothing new, and
/// everything that stood elsewhere.
pub proof fn lemma_remove_contains<A>(s: Seq<A>, at: int)
    requires
        0 <= at < s.len(),
    ensures
        forall|y: A| #[trigger] s.remove(at).contains(y) ==> s.contains(y),
        forall|i: int| 0 <= i < s.len() && i != at ==> s.remove(at).contains(#[trigger] s[i]),
{
    let r = s.remove(at);
    assert forall|y: A| #[trigger] r.contains(y) implies s.contains(y) by {
        let i = choose|i: int| 0 <= i < r.len() && r[i] == y;
        if i < at {
            assert(s[i] == y);
        } else {
            assert(s[i + 1] == y);
        }
    }
    assert forall|i: int| 0 <= i < s.len() && i != at implies r.contains(#[trigger] s[i]) by {
        if i < at {
            assert(r[i] == s[i]);
        } else {
            assert(r[i - 1] == s[i]);
        }
    }
}

/// The tags carried after `x` is put in: its own and those carried before.
pub proof fn lemma_insert_tags<A, K>(s: Seq<A>, tag: spec_fn(A) -> Option<K>, at: int, x: A)
    requires
        0 <= at <= s.len(),
    ensures
        forall|k: K| #[trigger]
            has_tag(s.insert(at, x), tag, k) <==> (tag(x) == Some(k) || has_tag(s, tag, k)),
{
    let r = s.insert(at, x);
    assert forall|k: K| #[trigger] has_tag(r, tag, k) <==> (tag(x) == Some(k) || has_tag(
        s,
        tag,
        k,
    )) by {
        if has_tag(r, tag, k) {
            let i = choose|i: int| 0 <= i < r.len() && #[trigger] tag(r[i]) == Some(k);
            if i < at {
                assert(tag(s[i]) == Some(k));
            } else if i > at {
                assert(tag(s[i - 1]) == Some(k));
            }
        }
        if tag(x) == Some(k) {
            assert(tag(r[at]) == Some(k));
        }
        if has_tag(s, tag, k) {
            let i = choose|i: int| 0 <= i < s.len() && #[trigger] tag(s[i]) == Some(k);
            if i < at {
                assert(tag(r[i]) == Some(k));
            } else {
                assert(tag(r[i + 1]) == Some(k));
            }
        }
    }
}

/// Tags stay distinct when an element is put in whose tag, if it has one,
/// was not carried.
pub proof fn lemma_insert_distinct<A, K>(s: Seq<A>, tag: spec_fn(A) -> Option<K>, at: int, x: A)
    requires
        0 <= at <= s.len(),
        distinct_tags(s, tag),
        tag(x) is Some ==> !has_tag(s, tag, tag(x)->0),
    ensures
        distinct_tags(s.insert(at, x), tag),
{
    let r = s.insert(at, x);
    assert forall|i: int, j: int| 0 <= i < j < r.len() && (#[trigger] tag(r[i])) is Some implies tag(
        r[i],
    ) != #[trigger] tag(r[j]) by {
        let a = if i < at {
            i
        } else {
            i - 1
        };
        let b = if j < at {
            j
        } else {
            j - 1
        };
        if i == at {
            assert(r[j] == s[b]);
            if tag(s[b]) == tag(x) {
                assert(has_tag(s, tag, tag(x)->0));
            }
        } else if j == at {
            assert(r[i] == s[a]);
            if tag(s[a]) == tag(x) {
                assert(has_tag(s, tag, tag(x)->0));
            }
        } else {
            assert(r[i] == s[a] && r[j] == s[b]);
            assert(tag(s[a]) != tag(s[b]));
        }
    }
}

/// The tags carried after the element at `at` is taken out, where tags are
/// distinct: those carried before, but for its own.
pub proof fn lemma_remove_tags<A, K>(s: Seq<A>, tag: spec_fn(A) -> Option<K>, at: int)
    requires
        0 <= at < s.len(),
        distinct_tags(s, tag),
    ensures
        distinct_tags(s.remove(at), tag),
        forall|k: K| #[trigger]
            has_tag(s.remove(at), tag, k) <==> (has_tag(s, tag, k) && tag(s[at]) != Some(k)),
{
    let r = s.remove(at);
    assert forall|i: int, j: int| 0 <= i < j < r.len() && (#[trigger] tag(r[i])) is Some implies tag(
        r[i],
    ) != #[trigger] tag(r[j]) by {
        let a = if i < at {
            i
        } else {
            i + 1
        };
        let b = if j < at {
            j
        } else {
            j + 1
        };
        assert(r[i] == s[a] && r[j] == s[b]);
        assert(tag(s[a]) != tag(s[b]));
    }
    assert forall|k: K| #[trigger] has_tag(r, tag, k) <==> (has_tag(s, tag, k) && tag(s[at])
        != Some(k)) by {
        if has_tag(r, tag, k) {
            let i = choose|i: int| 0 <= i < r.len() && #[trigger] tag(r[i]) == Some(k);
            let a = if i < at {
                i
            } else {
                i + 1
            };
            assert(r[i] == s[a]);
            assert(tag(s[a]) == Some(k));
            if a < at {
                assert(tag(s[a]) != tag(s[at]));
            } else {
                assert(tag(s[at]) != tag(s[a]));
            }
        }
        if has_tag(s, tag, k) && tag(s[at]) != Some(k) {
            let i = choose|i: int| 0 <= i < s.len() && #[trigger] tag(s[i]) == Some(k);
            if i < at {
                assert(tag(r[i]) == Some(k));
            } else {
                assert(r[i - 1] == s[i]);
                assert(tag(r[i - 1]) == Some(k));
            }
        }
    }
}

} // verus!
