//! Keeping at most one entry of a list selected.
use vstd::prelude::*;
use crate::toggleable_item::ToggleableItem;

verus! {

/// The number of selected entries.
pub open spec fn selected_count<T>(items: Seq<ToggleableItem<T>>) -> nat
    decreases items.len(),
{
    if items.len() == 0 {
        0
    } else {
        selected_count(items.drop_last()) + if items.last().state {
            1nat
        } else {
            0nat
        }
    }
}

/// Whether `index` is the position of the first selected entry.
pub open spec fn is_first_selected<T>(items: Seq<ToggleableItem<T>>, index: int) -> bool {
    &&& 0 <= index < items.len()
    &&& items[index].state
    &&& forall|k: int| 0 <= k < index ==> !(#[trigger] items[k]).state
}

/// Whether no entry is selected.
pub open spec fn none_selected<T>(items: Seq<ToggleableItem<T>>) -> bool {
    forall|k: int| 0 <= k < items.len() ==> !(#[trigger] items[k]).state
}

/// The list with the entry at `index` no longer selected.
pub open spec fn deselected<T>(items: Seq<ToggleableItem<T>>, index: int) -> Seq<
    ToggleableItem<T>,
> {
    items.update(index, ToggleableItem { item: items[index].item, state: false })
}

/// Whether the selection of `current` can be settled against that of `previous`: at most
/// two entries are selected, and unless exactly one is, the entry that was selected before,
/// if there was one, is still there and still selected.
pub open spec fn can_settle<T>(
    current: Seq<ToggleableItem<T>>,
    previous: Seq<ToggleableItem<T>>,
) -> bool {
    &&& selected_count(current) <= 2
    &&& selected_count(current) != 1 ==> forall|p: int| #[trigger]
        is_first_selected(previous, p) ==> p < current.len() && current[p].state
}

/// The list that settling leaves: where exactly one entry is selected, or none was selected
/// before, nothing changes; otherwise the entry that was selected before is switched off.
pub open spec fn settled<T>(
    current: Seq<ToggleableItem<T>>,
    previous: Seq<ToggleableItem<T>>,
) -> Seq<ToggleableItem<T>> {
    if selected_count(current) == 1 || none_selected(previous) {
        current
    } else {
        deselected(current, choose|p: int| is_first_selected(previous, p))
    }
}

/// Switching a selected entry off leaves one selected entry fewer.
pub proof fn lemma_deselected_count<T>(items: Seq<ToggleableItem<T>>, index: int)
    requires
        0 <= index < items.len(),
        items[index].state,
    ensures
        selected_count(deselected(items, index)) + 1 == selected_count(items),
    decreases items.len(),
{
    let after = deselected(items, index);
    if index == items.len() - 1 {
        assert(after.drop_last() =~= items.drop_last());
    } else {
        lemma_deselected_count(items.drop_last(), index);
        assert(after.drop_last() =~= deselected(items.drop_last(), index));
    }
}

/// A list has no more than one first selected entry.
pub proof fn lemma_first_selected_unique<T>(items: Seq<ToggleableItem<T>>, p: int, q: int)
    requires
        is_first_selected(items, p),
        is_first_selected(items, q),
    ensures
        p == q,
{
}

/// Where an entry was selected before, settling leaves exactly one entry selected.
pub proof fn lemma_settled_selects_one<T>(
    current: Seq<ToggleableItem<T>>,
    previous: Seq<ToggleableItem<T>>,
)
    requires
        can_settle(current, previous),
        !none_selected(previous),
    ensures
        selected_count(settled(current, previous)) == 1,
{
    if selected_count(current) != 1 {
        lemma_has_first_selected(previous);
        let p = choose|p: int| is_first_selected(previous, p);
        lemma_deselected_count(current, p);
    }
}

/// A list with a selected entry has a first one.
pub proof fn lemma_has_first_selected<T>(items: Seq<ToggleableItem<T>>)
    requires
        !none_selected(items),
    ensures
        exists|p: int| is_first_selected(items, p),
    decreases items.len(),
{
    if items.len() > 0 {
        let shorter = items.drop_last();
        if none_selected(shorter) {
            let last = items.len() - 1;
            assert forall|k: int| 0 <= k < last implies !(#[trigger] items[k]).state by {
                assert(shorter[k] == items[k]);
            }
            assert(is_first_selected(items, last));
        } else {
            lemma_has_first_selected(shorter);
            let p = choose|p: int| is_first_selected(shorter, p);
            assert forall|k: int| 0 <= k < p implies !(#[trigger] items[k]).state by {
                assert(shorter[k] == items[k]);
            }
            assert(is_first_selected(items, p));
        }
    }
}

/// The position of the first selected entry, if any entry is selected.
pub fn first_selected<T>(items: &Vec<ToggleableItem<T>>) -> (found: Option<usize>)
    ensures
        match found {
            Some(p) => is_first_selected(items@, p as int),
            None => none_selected(items@),
        },
{
    let mut i: usize = 0;
    while i < items.len()
        invariant
            i <= items.len(),
            forall|k: int| 0 <= k < i ==> !(#[trigger] items@[k]).state,
        decreases items.len() - i,
    {
        if items[i].state {
            return Some(i);
        }
        i += 1;
    }
    None
}

/// The number of selected entries.
pub fn count_selected<T>(items: &[ToggleableItem<T>]) -> (count: usize)
    ensures
        count == selected_count(items@),
{
    let mut count: usize = 0;
    let mut i: usize = 0;
    while i < items.len()
        invariant
            i <= items.len(),
            count <= i,
            count == selected_count(items@.subrange(0, i as int)),
        decreases items.len() - i,
    {
        assert(items@.subrange(0, i + 1).drop_last() =~= items@.subrange(0, i as int));
        if items[i].state {
            count += 1;
        }
        i += 1;
    }
    assert(items@.subrange(0, i as int) =~= items@);
    count
}

/// Whether the selection of `current_items` can be settled against that of
/// `previous_items`.
pub fn can_settle_items<T>(
    current_items: &[ToggleableItem<T>],
    previous_items: &Vec<ToggleableItem<T>>,
) -> (ok: bool)
    ensures
        ok == can_settle(current_items@, previous_items@),
{
    let selected = count_selected(current_items);
    if selected > 2 {
        return false;
    }
    if selected == 1 {
        return true;
    }
    match first_selected(previous_items) {
        Some(previous_selection) => {
            let ok = previous_selection < current_items.len()
                && current_items[previous_selection].state;
            proof {
                assert forall|p: int| #[trigger]
                    is_first_selected(previous_items@, p) implies p == previous_selection by {
                    lemma_first_selected_unique(previous_items@, p, previous_selection as int);
                }
            }
            ok
        },
        None => true,
    }
}

/// Changes `current_items` so that at most one entry stays selected, preferring the newer
/// of two selected entries.
///
/// `previous_items` is the list as it was before the last change, in which at most one
/// entry was selected. Where exactly one entry of `current_items` is selected, or none was
/// selected before, nothing changes. Otherwise the entry that was selected before is
/// switched off, which leaves the one that was selected last.
pub fn only_one_toggleable_item<T>(
    current_items: &mut [ToggleableItem<T>],
    previous_items: Vec<ToggleableItem<T>>,
)
    requires
        can_settle(old(current_items)@, previous_items@),
    ensures
        final(current_items)@ == settled(old(current_items)@, previous_items@),
{
    let previous_selection = first_selected(&previous_items);
    let selected = count_selected(current_items);
    if selected == 1 {
        return;
    }
    match previous_selection {
        Some(previous_selection) => {
            proof {
                assert(!none_selected(previous_items@));
                let chosen = choose|p: int| is_first_selected(previous_items@, p);
                lemma_first_selected_unique(previous_items@, chosen, previous_selection as int);
            }
            current_items[previous_selection].state = false;
        },
        None => {},
    }
}

} // verus!
