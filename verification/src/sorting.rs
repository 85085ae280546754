//! Sorting media entries in parallel by the order of `crate::order`.

use crate::order::{compare_keys, index_order_at, index_order_is_total, key_views, MediaKey, Order};
use std::cmp::Ordering;
use vstd::prelude::*;

verus! {

/// `Order` as the standard library writes it.
pub open spec fn as_ordering(o: Order) -> Ordering {
    match o {
        Order::Less => Ordering::Less,
        Order::Equal => Ordering::Equal,
        Order::Greater => Ordering::Greater,
    }
}

/// Compares the entries at positions `i` and `j` of `keys`, for the sort.
pub fn compare_entries(keys: &Vec<MediaKey>, i: usize, j: usize) -> (r: Ordering)
    requires
        i < keys@.len(),
        j < keys@.len(),
    ensures
        r == as_ordering(index_order_at(key_views(keys@), i, j)),
{
    match compare_keys(keys, i, j) {
        Order::Less => Ordering::Less,
        Order::Equal => Ordering::Equal,
        Order::Greater => Ordering::Greater,
    }
}

/// Calls `rayon::slice::ParallelSliceMut::par_sort_by` on the positions in `order`,
/// comparing two positions by `compare_entries`. Its documentation promises a
/// reordering that is sorted by the comparator when the comparator is a total order.
#[verifier::external_body]
pub(crate) fn par_sort_positions(order: &mut Vec<usize>, keys: &Vec<MediaKey>)
    requires
        forall|k: int| 0 <= k < old(order)@.len() ==> old(order)@[k] < keys@.len(),
        index_order_is_total(key_views(keys@)),
    ensures
        final(order)@.to_multiset() == old(order)@.to_multiset(),
        forall|p: int, q: int|
            0 <= p < q < final(order)@.len() ==> index_order_at(
                key_views(keys@),
                final(order)@[p],
                final(order)@[q],
            ) != Order::Greater,
{
    rayon::slice::ParallelSliceMut::par_sort_by(order.as_mut_slice(), |a, b| compare_entries(keys, *a, *b));
}

} // verus!
