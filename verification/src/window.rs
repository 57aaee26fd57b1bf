//! Bounded first-in-first-out windows: the latest few items, oldest first.

use vstd::prelude::*;

verus! {

/// The window after `item` has arrived: `item` stands last, and where that
/// makes more than `capacity` entries the oldest one is dropped.
pub open spec fn slide<T>(window: Seq<T>, item: T, capacity: nat) -> Seq<T> {
    let grown = window.push(item);
    if grown.len() > capacity {
        grown.subrange(1, grown.len() as int)
    } else {
        grown
    }
}

/// The window after each of `items` has arrived in turn.
pub open spec fn slide_all<T>(window: Seq<T>, items: Seq<T>, capacity: nat) -> Seq<T>
    decreases items.len(),
{
    if items.len() == 0 {
        window
    } else {
        slide(slide_all(window, items.drop_last(), capacity), items.last(), capacity)
    }
}

/// The last `capacity` entries of `all`, or all of it if it has fewer.
pub open spec fn latest<T>(all: Seq<T>, capacity: nat) -> Seq<T> {
    if all.len() > capacity {
        all.subrange(all.len() - capacity, all.len() as int)
    } else {
        all
    }
}

/// Appends `item` to `window` and drops the oldest entry on overflow.
pub fn push_bounded<T>(window: &mut Vec<T>, item: T, capacity: usize)
    ensures
        final(window)@ == slide(old(window)@, item, capacity as nat),
{
    window.push(item);
    if window.len() > capacity {
        let _ = window.remove(0);
    }
}

/// A window within its bound stays within it when an item arrives, and the
/// item then stands last, unless the window can hold nothing.
pub proof fn lemma_slide_bounded<T>(window: Seq<T>, item: T, capacity: nat)
    requires
        window.len() <= capacity,
    ensures
        slide(window, item, capacity).len() <= capacity,
        capacity > 0 ==> slide(window, item, capacity).len() >= 1,
        capacity > 0 ==> slide(window, item, capacity).last() == item,
{
}

/// However many items arrive, the window never holds more than `capacity`
/// of them, and it holds exactly the latest: what arrived earlier is gone,
/// and what remains stands in its order of arrival.
pub proof fn lemma_window_keeps_latest<T>(window: Seq<T>, items: Seq<T>, capacity: nat)
    requires
        window.len() <= capacity,
    ensures
        slide_all(window, items, capacity).len() <= capacity,
        slide_all(window, items, capacity) == latest(window + items, capacity),
    decreases items.len(),
{
    if items.len() > 0 {
        lemma_window_keeps_latest(window, items.drop_last(), capacity);
    }
}

/// One arrival more than the capacity, into an empty window, leaves all but
/// the first: the first item is held no longer, and the last one is.
pub proof fn lemma_overflow_evicts_first<T>(items: Seq<T>, capacity: nat)
    requires
        items.len() == capacity + 1,
    ensures
        slide_all(Seq::<T>::empty(), items, capacity) == items.subrange(1, items.len() as int),
        forall|i: int|
            0 <= i < capacity ==> #[trigger] slide_all(Seq::<T>::empty(), items, capacity)[i]
                == items[i + 1],
{
    lemma_window_keeps_latest(Seq::<T>::empty(), items, capacity);
}

} // verus!
