//! Grouping a delivery sequence into batches that one delivery call can take.

use vstd::prelude::*;

verus! {

/// The most payloads that one delivery call accepts.
pub const BATCH_LIMIT: usize = 10;

/// The number of batches that `n` items need: `n / 10`, rounded up.
pub open spec fn batch_count(n: nat) -> nat {
    ((n + 9) / 10) as nat
}

/// The items cut into consecutive groups of ten; the last group holds what
/// is left, and an empty sequence gives no group at all.
pub open spec fn batched<T>(items: Seq<T>) -> Seq<Seq<T>> {
    Seq::new(
        batch_count(items.len()),
        |k: int|
            items.subrange(
                10 * k,
                if 10 * k + 10 <= items.len() {
                    10 * k + 10
                } else {
                    items.len() as int
                },
            ),
    )
}

/// The contents of a sequence of batches, batch by batch.
pub open spec fn batch_views<T>(batches: Seq<Vec<T>>) -> Seq<Seq<T>> {
    batches.map_values(|b: Vec<T>| b@)
}

/// Cuts `items` into consecutive batches of at most ten, keeping the order.
pub fn split_batches<T>(items: Vec<T>) -> (batches: Vec<Vec<T>>)
    ensures
        batch_views(batches@) == batched(items@),
{
    let ghost all = items@;
    let mut batches: Vec<Vec<T>> = Vec::new();
    let mut rest = items;
    while rest.len() > BATCH_LIMIT
        invariant
            10 * batches.len() + rest.len() == all.len(),
            rest@ == all.subrange(10 * batches.len(), all.len() as int),
            forall|k: int|
                0 <= k < batches.len() ==> (#[trigger] batches@[k])@ == batched(all)[k],
        decreases rest.len(),
    {
        let ghost start = 10 * batches.len();
        let tail = rest.split_off(BATCH_LIMIT);
        assert(rest@ =~= all.subrange(start, start + 10));
        assert(tail@ =~= all.subrange(start + 10, all.len() as int));
        batches.push(rest);
        rest = tail;
    }
    if rest.len() > 0 {
        batches.push(rest);
    }
    assert(batch_views(batches@) =~= batched(all));
    batches
}

/// The batches partition the sequence. There are `ceil(n / 10)` of them, none
/// is empty, none holds more than ten items, and laid end to end they give
/// the sequence back.
pub proof fn lemma_batches_partition<T>(items: Seq<T>)
    ensures
        batched(items).len() == batch_count(items.len()),
        10 * (batched(items).len() - 1) < items.len() <= 10 * batched(items).len()
            || (items.len() == 0 && batched(items).len() == 0),
        forall|k: int|
            0 <= k < batched(items).len() ==> 1 <= (#[trigger] batched(items)[k]).len() <= 10,
        batched(items).flatten() == items,
{
    lemma_batches_join(items, batched(items).len() as int);
    assert(batched(items).subrange(0, batched(items).len() as int) =~= batched(items));
    assert(items.subrange(0, items.len() as int) =~= items);
}

proof fn lemma_batches_join<T>(items: Seq<T>, upto: int)
    requires
        0 <= upto <= batched(items).len(),
    ensures
        batched(items).subrange(0, upto).flatten() == items.subrange(
            0,
            if 10 * upto <= items.len() {
                10 * upto
            } else {
                items.len() as int
            },
        ),
    decreases upto,
{
    let groups = batched(items);
    if upto == 0 {
        assert(groups.subrange(0, 0) =~= Seq::<Seq<T>>::empty());
        assert(groups.subrange(0, 0).flatten() =~= items.subrange(0, 0));
    } else {
        let before = upto - 1;
        lemma_batches_join(items, before);
        let head = groups.subrange(0, before);
        assert(groups.subrange(0, upto) =~= head.push(groups[before]));
        head.lemma_flatten_push(groups[before]);
        let end = if 10 * upto <= items.len() {
            10 * upto
        } else {
            items.len() as int
        };
        assert(items.subrange(0, 10 * before) + groups[before] =~= items.subrange(0, end));
    }
}

} // verus!
