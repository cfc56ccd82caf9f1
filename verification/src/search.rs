//! Finding the first occurrence of an item in a sequence.

use vstd::prelude::*;

verus! {

/// The index of the first item equal to `item`, if any.
#[verifier::opaque]
pub open spec fn first_index_of<T>(items: Seq<T>, item: T) -> Option<int> {
    if exists|i: int| 0 <= i < items.len() && items[i] == item {
        Some(
            choose|i: int|
                0 <= i < items.len() && items[i] == item && (forall|j: int|
                    0 <= j < i ==> items[j] != item),
        )
    } else {
        None
    }
}

/// What `first_index_of` finds: an index in range holding the item, with
/// no earlier one holding it; or, when it finds none, no index holds it.
pub proof fn lemma_first_index_of_found<T>(items: Seq<T>, item: T)
    ensures
        first_index_of(items, item) matches Some(i) ==> 0 <= i < items.len() && items[i] == item
            && forall|j: int| 0 <= j < i ==> items[j] != item,
        first_index_of(items, item) is None ==> forall|j: int|
            0 <= j < items.len() ==> items[j] != item,
{
    reveal(first_index_of);
    if exists|i: int| 0 <= i < items.len() && items[i] == item {
        let w = choose|i: int| 0 <= i < items.len() && items[i] == item;
        lemma_a_first_one_exists(items, item, w);
    }
}

/// Below any index holding the item there is a first one.
proof fn lemma_a_first_one_exists<T>(items: Seq<T>, item: T, w: int)
    requires
        0 <= w < items.len(),
        items[w] == item,
    ensures
        exists|i: int|
            0 <= i < items.len() && items[i] == item && (forall|j: int|
                0 <= j < i ==> items[j] != item),
    decreases w,
{
    if exists|j: int| 0 <= j < w && items[j] == item {
        let j = choose|j: int| 0 <= j < w && items[j] == item;
        lemma_a_first_one_exists(items, item, j);
    } else {
        assert(0 <= w < items.len() && items[w] == item && (forall|j: int|
            0 <= j < w ==> items[j] != item));
    }
}

/// An index holding the item, with no earlier one holding it, is the one
/// `first_index_of` finds.
pub proof fn lemma_first_index_of_is<T>(items: Seq<T>, item: T, i: int)
    requires
        0 <= i < items.len(),
        items[i] == item,
        forall|j: int| 0 <= j < i ==> items[j] != item,
    ensures
        first_index_of(items, item) == Some(i),
{
    lemma_first_index_of_found(items, item);
    assert(items[i] == item);
    let k = first_index_of(items, item)->0;
    if k < i {
        assert(items[k] != item);
    }
    if i < k {
        assert(items[i] != item);
    }
}

/// When no index holds the item, `first_index_of` finds none.
pub proof fn lemma_first_index_of_absent<T>(items: Seq<T>, item: T)
    requires
        forall|j: int| 0 <= j < items.len() ==> items[j] != item,
    ensures
        first_index_of(items, item) is None,
{
    lemma_first_index_of_found(items, item);
}

} // verus!
