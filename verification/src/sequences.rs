//! Sequence vocabulary shared by the contracts: concatenated images of a
//! sequence, and sequences used as insertion-ordered sets.

use vstd::prelude::*;

verus! {

/// The images of the items of `s` under `f`, concatenated in order.
pub open spec fn flat_map<A, B>(s: Seq<A>, f: spec_fn(A) -> Seq<B>) -> Seq<B>
    decreases s.len(),
{
    if s.len() == 0 {
        Seq::empty()
    } else {
        flat_map(s.drop_last(), f) + f(s.last())
    }
}

/// `s` with `x` appended unless it is already there.
pub open spec fn push_unique<A>(s: Seq<A>, x: A) -> Seq<A> {
    if s.contains(x) {
        s
    } else {
        s.push(x)
    }
}

/// `s` followed by those of `items` that it does not hold yet, each once,
/// in the order of their first occurrence.
pub open spec fn extend_unique<A>(s: Seq<A>, items: Seq<A>) -> Seq<A>
    decreases items.len(),
{
    if items.len() == 0 {
        s
    } else {
        push_unique(extend_unique(s, items.drop_last()), items.last())
    }
}

/// The items of `s` without repetitions, in the order of their first occurrence.
pub open spec fn distinct<A>(s: Seq<A>) -> Seq<A> {
    extend_unique(Seq::empty(), s)
}

/// Whether `k` is the position of the first item of `s` that satisfies `p`.
pub open spec fn is_first<A>(s: Seq<A>, p: spec_fn(A) -> bool, k: int) -> bool {
    &&& 0 <= k < s.len()
    &&& p(s[k])
    &&& forall|j: int| 0 <= j < k ==> !p(#[trigger] s[j])
}

/// The position of the first item of `s` that satisfies `p`, if any does.
pub open spec fn find_first<A>(s: Seq<A>, p: spec_fn(A) -> bool) -> Option<int> {
    if exists|k: int| is_first(s, p, k) {
        Some(choose|k: int| is_first(s, p, k))
    } else {
        None
    }
}

/// The first match is unique, so knowing one position that qualifies pins the result.
pub proof fn lemma_find_first_is<A>(s: Seq<A>, p: spec_fn(A) -> bool, k: int)
    requires
        is_first(s, p, k),
    ensures
        find_first(s, p) == Some(k),
{
    let c = choose|c: int| is_first(s, p, c);
    if c < k {
        assert(!p(s[c]));
    } else if k < c {
        assert(!p(s[k]));
    }
}

/// One more item of the source appends its image.
pub proof fn lemma_flat_map_step<A, B>(s: Seq<A>, f: spec_fn(A) -> Seq<B>, i: int)
    ensures
        0 <= i < s.len() ==> flat_map(s.take(i + 1), f) == flat_map(s.take(i), f) + f(s[i]),
        flat_map(s.take(0), f) == Seq::<B>::empty(),
        s.take(s.len() as int) == s,
{
    if 0 <= i < s.len() {
        assert(s.take(i + 1).drop_last() =~= s.take(i));
    }
    assert(s.take(s.len() as int) =~= s);
}

/// An item is in the concatenation exactly when it is in the image of some source item.
pub proof fn lemma_flat_map_contains<A, B>(s: Seq<A>, f: spec_fn(A) -> Seq<B>, b: B)
    ensures
        flat_map(s, f).contains(b) <==> exists|i: int| 0 <= i < s.len() && #[trigger] f(s[i]).contains(b),
    decreases s.len(),
{
    if s.len() == 0 {
    } else {
        let init = s.drop_last();
        lemma_flat_map_contains(init, f, b);
        let whole = flat_map(init, f) + f(s.last());
        if whole.contains(b) {
            let k = choose|k: int| 0 <= k < whole.len() && whole[k] == b;
            if k < flat_map(init, f).len() {
                assert(flat_map(init, f)[k] == b);
                let i = choose|i: int| 0 <= i < init.len() && #[trigger] f(init[i]).contains(b);
                assert(f(s[i]).contains(b));
            } else {
                assert(f(s.last())[k - flat_map(init, f).len()] == b);
                assert(f(s[s.len() - 1]).contains(b));
            }
        }
        if exists|i: int| 0 <= i < s.len() && #[trigger] f(s[i]).contains(b) {
            let i = choose|i: int| 0 <= i < s.len() && #[trigger] f(s[i]).contains(b);
            if i < init.len() {
                assert(f(init[i]).contains(b));
                let head = flat_map(init, f);
                let k = choose|k: int| 0 <= k < head.len() && head[k] == b;
                assert(whole[k] == b);
            } else {
                let image = f(s.last());
                let k = choose|k: int| 0 <= k < image.len() && image[k] == b;
                assert(whole[flat_map(init, f).len() + k] == b);
            }
        }
    }
}

/// One more item of the source is kept or dropped by the filter.
pub proof fn lemma_filter_step<A>(s: Seq<A>, p: spec_fn(A) -> bool, i: int)
    ensures
        0 <= i < s.len() ==> s.take(i + 1).filter(p) == if p(s[i]) {
            s.take(i).filter(p).push(s[i])
        } else {
            s.take(i).filter(p)
        },
        s.take(0).filter(p) == Seq::<A>::empty(),
        s.take(s.len() as int) == s,
{
    reveal(Seq::filter);
    if 0 <= i < s.len() {
        assert(s.take(i + 1).drop_last() =~= s.take(i));
    }
    assert(s.take(s.len() as int) =~= s);
    assert(s.take(0).filter(p) =~= Seq::<A>::empty());
}

/// Filtering a duplicate-free sequence keeps it duplicate-free, and keeps
/// exactly the items that satisfy the predicate.
pub proof fn lemma_filter_no_duplicates<A>(s: Seq<A>, p: spec_fn(A) -> bool)
    requires
        s.no_duplicates(),
    ensures
        s.filter(p).no_duplicates(),
        forall|x: A| #[trigger] s.filter(p).contains(x) <==> s.contains(x) && p(x),
    decreases s.len(),
{
    reveal(Seq::filter);
    let kept = s.filter(p);
    assert forall|x: A| #[trigger] kept.contains(x) <==> s.contains(x) && p(x) by {
        if kept.contains(x) {
            s.lemma_filter_contains_rev(p, x);
            let k = choose|k: int| 0 <= k < kept.len() && kept[k] == x;
            s.lemma_filter_pred(p, k);
        }
        if s.contains(x) && p(x) {
            let k = choose|k: int| 0 <= k < s.len() && s[k] == x;
            s.lemma_filter_contains(p, k);
        }
    }
    if s.len() > 0 {
        let init = s.drop_last();
        lemma_filter_no_duplicates(init, p);
        if p(s.last()) {
            if init.filter(p).contains(s.last()) {
                init.lemma_filter_contains_rev(p, s.last());
                let j = choose|j: int| 0 <= j < init.len() && init[j] == s.last();
                assert(s[j] == s[s.len() - 1]);
            }
        }
    }
}

/// One more item of the source is appended unless it is there already.
pub proof fn lemma_extend_unique_step<A>(s: Seq<A>, items: Seq<A>, i: int)
    ensures
        0 <= i < items.len() ==> extend_unique(s, items.take(i + 1)) == push_unique(
            extend_unique(s, items.take(i)),
            items[i],
        ),
        extend_unique(s, items.take(0)) == s,
        items.take(items.len() as int) == items,
{
    if 0 <= i < items.len() {
        assert(items.take(i + 1).drop_last() =~= items.take(i));
    }
    assert(items.take(items.len() as int) =~= items);
}

/// Extending keeps a duplicate-free sequence duplicate-free, keeps it as a
/// prefix, and adds exactly the new items.
pub proof fn lemma_extend_unique<A>(s: Seq<A>, items: Seq<A>)
    requires
        s.no_duplicates(),
    ensures
        extend_unique(s, items).no_duplicates(),
        s.is_prefix_of(extend_unique(s, items)),
        forall|x: A| #[trigger] extend_unique(s, items).contains(x) <==> s.contains(x) || items.contains(x),
    decreases items.len(),
{
    if items.len() == 0 {
    } else {
        let init = items.drop_last();
        let last = items.last();
        lemma_extend_unique(s, init);
        let before = extend_unique(s, init);
        let after = push_unique(before, last);
        assert forall|x: A| #[trigger] after.contains(x) <==> s.contains(x) || items.contains(x) by {
            if after.contains(x) {
                if before.contains(x) {
                    if init.contains(x) {
                        let k = choose|k: int| 0 <= k < init.len() && init[k] == x;
                        assert(items[k] == x);
                    }
                } else {
                    let k = choose|k: int| 0 <= k < after.len() && after[k] == x;
                    assert(k == before.len());
                    assert(items[items.len() - 1] == x);
                }
            }
            if s.contains(x) {
                assert(before.contains(x));
                let k = choose|k: int| 0 <= k < before.len() && before[k] == x;
                assert(after[k] == x);
            }
            if items.contains(x) {
                let k = choose|k: int| 0 <= k < items.len() && items[k] == x;
                if k < init.len() {
                    assert(init[k] == x);
                    assert(before.contains(x));
                    let j = choose|j: int| 0 <= j < before.len() && before[j] == x;
                    assert(after[j] == x);
                } else {
                    if before.contains(x) {
                    } else {
                        assert(after[before.len() as int] == x);
                    }
                }
            }
        }
    }
}

/// `distinct` holds each item of its argument, once.
pub proof fn lemma_distinct<A>(s: Seq<A>)
    ensures
        distinct(s).no_duplicates(),
        forall|x: A| #[trigger] distinct(s).contains(x) <==> s.contains(x),
{
    lemma_extend_unique(Seq::<A>::empty(), s);
}

} // verus!
