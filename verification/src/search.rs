//! The first and the last element of a sequence that have a property.
//!
//! Most decisions of the upgrade stop at the first element that settles
//! them: the first pod that is not ready, the first node that drains. These
//! definitions say which element that is, once and for all of them.

use vstd::prelude::*;

verus! {

/// `k` is the least index at which `pred` holds.
pub open spec fn is_first<T>(s: Seq<T>, pred: spec_fn(T) -> bool, k: int) -> bool {
    &&& 0 <= k < s.len()
    &&& pred(s[k])
    &&& forall|j: int| 0 <= j < k ==> !#[trigger] pred(s[j])
}

/// `k` is the greatest index at which `pred` holds.
pub open spec fn is_last<T>(s: Seq<T>, pred: spec_fn(T) -> bool, k: int) -> bool {
    &&& 0 <= k < s.len()
    &&& pred(s[k])
    &&& forall|j: int| k < j < s.len() ==> !#[trigger] pred(s[j])
}

/// `pred` holds of some element.
pub open spec fn any<T>(s: Seq<T>, pred: spec_fn(T) -> bool) -> bool {
    exists|i: int| 0 <= i < s.len() && #[trigger] pred(s[i])
}

/// The least index at which `pred` holds, if there is one.
pub open spec fn first<T>(s: Seq<T>, pred: spec_fn(T) -> bool) -> Option<int> {
    if exists|k: int| is_first(s, pred, k) {
        Some(choose|k: int| is_first(s, pred, k))
    } else {
        None
    }
}

/// The greatest index at which `pred` holds, if there is one.
pub open spec fn last<T>(s: Seq<T>, pred: spec_fn(T) -> bool) -> Option<int> {
    if exists|k: int| is_last(s, pred, k) {
        Some(choose|k: int| is_last(s, pred, k))
    } else {
        None
    }
}

/// The least index with the property is the only one that [`first`] can name.
pub proof fn lemma_first_found<T>(s: Seq<T>, pred: spec_fn(T) -> bool, k: int)
    requires
        is_first(s, pred, k),
    ensures
        first(s, pred) == Some(k),
{
    let c = choose|c: int| is_first(s, pred, c);
    assert(is_first(s, pred, c));
    if c < k {
        assert(!pred(s[c]));
    } else if k < c {
        assert(!pred(s[k]));
    }
}

/// Where no element has the property, [`first`] names none.
pub proof fn lemma_first_absent<T>(s: Seq<T>, pred: spec_fn(T) -> bool)
    requires
        !any(s, pred),
    ensures
        first(s, pred) is None,
{
    if exists|k: int| is_first(s, pred, k) {
        let k = choose|k: int| is_first(s, pred, k);
        assert(pred(s[k]));
    }
}

/// [`first`] names an element exactly when some element has the property,
/// and then it names the least such index.
pub proof fn lemma_first<T>(s: Seq<T>, pred: spec_fn(T) -> bool)
    ensures
        first(s, pred) is Some <==> any(s, pred),
        first(s, pred) matches Some(k) ==> is_first(s, pred, k),
    decreases s.len(),
{
    if any(s, pred) {
        let i = choose|i: int| 0 <= i < s.len() && #[trigger] pred(s[i]);
        lemma_least_exists(s, pred, i);
    } else {
        lemma_first_absent(s, pred);
    }
}

/// Below any index with the property lies a least one.
proof fn lemma_least_exists<T>(s: Seq<T>, pred: spec_fn(T) -> bool, i: int)
    requires
        0 <= i < s.len(),
        pred(s[i]),
    ensures
        exists|k: int| is_first(s, pred, k),
    decreases i,
{
    if exists|j: int| 0 <= j < i && #[trigger] pred(s[j]) {
        let j = choose|j: int| 0 <= j < i && #[trigger] pred(s[j]);
        lemma_least_exists(s, pred, j);
    } else {
        assert(is_first(s, pred, i));
    }
}

/// The greatest index with the property is the only one that [`last`] can name.
pub proof fn lemma_last_found<T>(s: Seq<T>, pred: spec_fn(T) -> bool, k: int)
    requires
        is_last(s, pred, k),
    ensures
        last(s, pred) == Some(k),
{
    let c = choose|c: int| is_last(s, pred, c);
    assert(is_last(s, pred, c));
    if c < k {
        assert(!pred(s[k]));
    } else if k < c {
        assert(!pred(s[c]));
    }
}

/// Where no element has the property, [`last`] names none.
pub proof fn lemma_last_absent<T>(s: Seq<T>, pred: spec_fn(T) -> bool)
    requires
        !any(s, pred),
    ensures
        last(s, pred) is None,
{
    if exists|k: int| is_last(s, pred, k) {
        let k = choose|k: int| is_last(s, pred, k);
        assert(pred(s[k]));
    }
}

} // verus!
