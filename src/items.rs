use vstd::prelude::*;

verus! {

/// The items of `s` that are not the empty string, in their order in `s`.
pub open spec fn nonempty_items(s: Seq<String>) -> Seq<String> {
    s.filter(|x: String| x@.len() > 0)
}

/// `idx` picks out `r` from `s`: strictly increasing positions of `s` whose
/// items, in turn, are the items of `r`.
pub open spec fn picks_in_order(s: Seq<String>, r: Seq<String>, idx: Seq<int>) -> bool {
    &&& idx.len() == r.len()
    &&& forall|j: int, k: int| 0 <= j < k < idx.len() ==> idx[j] < idx[k]
    &&& forall|j: int| 0 <= j < idx.len() ==> 0 <= #[trigger] idx[j] < s.len() && s[idx[j]] == r[j]
}

proof fn lemma_nonempty_items_push(s: Seq<String>, x: String)
    ensures
        nonempty_items(s.push(x)) == if x@.len() > 0 {
            nonempty_items(s).push(x)
        } else {
            nonempty_items(s)
        },
{
    reveal(Seq::filter);
    assert(s.push(x).drop_last() == s);
}

/// Keeps the items that are not the empty string, in their order.
pub fn filter_items(items: Vec<String>) -> (r: Vec<String>)
    ensures
        r@ == nonempty_items(items@),
        r@.len() <= items@.len(),
        forall|i: int| 0 <= i < r@.len() ==> (#[trigger] r@[i])@.len() > 0,
{
    let mut result: Vec<String> = Vec::new();
    let mut i: usize = 0;
    while i < items.len()
        invariant
            i <= items@.len(),
            result@ == nonempty_items(items@.subrange(0, i as int)),
        decreases items@.len() - i,
    {
        let item = &items[i];
        proof {
            assert(items@.subrange(0, i + 1) == items@.subrange(0, i as int).push(*item));
            lemma_nonempty_items_push(items@.subrange(0, i as int), *item);
        }
        if !item.as_str().is_empty() {
            result.push(item.clone());
        }
        i = i + 1;
    }
    proof {
        assert(items@.subrange(0, items@.len() as int) == items@);
        lemma_filter_items_shrinks(items@);
        lemma_filter_items_nonempty(items@);
    }
    result
}

/// Filtering never makes a sequence longer.
pub proof fn lemma_filter_items_shrinks(s: Seq<String>)
    ensures
        nonempty_items(s).len() <= s.len(),
{
    broadcast use vstd::seq_lib::group_filter_ensures;
}

/// Every item that filtering keeps is a non-empty string.
pub proof fn lemma_filter_items_nonempty(s: Seq<String>)
    ensures
        forall|i: int|
            0 <= i < nonempty_items(s).len() ==> (#[trigger] nonempty_items(s)[i])@.len() > 0,
{
    broadcast use vstd::seq_lib::group_filter_ensures;
}

proof fn kept_positions(s: Seq<String>) -> (idx: Seq<int>)
    ensures
        picks_in_order(s, nonempty_items(s), idx),
    decreases s.len(),
{
    if s.len() == 0 {
        reveal(Seq::filter);
        Seq::empty()
    } else {
        let init = s.drop_last();
        let x = s.last();
        let prev = kept_positions(init);
        assert(s == init.push(x));
        lemma_nonempty_items_push(init, x);
        if x@.len() > 0 {
            let idx = prev.push(s.len() - 1);
            assert(picks_in_order(s, nonempty_items(s), idx));
            idx
        } else {
            prev
        }
    }
}

/// Filtering keeps the relative order of the items it keeps: they stand at
/// strictly increasing positions of the input.
pub proof fn lemma_filter_items_keeps_order(s: Seq<String>)
    ensures
        exists|idx: Seq<int>| picks_in_order(s, nonempty_items(s), idx),
{
    let idx = kept_positions(s);
    assert(picks_in_order(s, nonempty_items(s), idx));
}

/// Filtering twice gives what filtering once gives.
pub proof fn lemma_filter_items_idempotent(s: Seq<String>)
    ensures
        nonempty_items(nonempty_items(s)) == nonempty_items(s),
    decreases s.len(),
{
    if s.len() == 0 {
        reveal(Seq::filter);
    } else {
        let init = s.drop_last();
        let x = s.last();
        assert(s == init.push(x));
        lemma_filter_items_idempotent(init);
        lemma_nonempty_items_push(init, x);
        if x@.len() > 0 {
            lemma_nonempty_items_push(nonempty_items(init), x);
        }
    }
}

} // verus!
