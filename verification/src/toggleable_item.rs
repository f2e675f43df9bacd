//! Items that can be switched on and off in a list.
use vstd::prelude::*;
use vstd::std_specs::cmp::{PartialEqSpec, PartialEqSpecImpl};
use vstd::std_specs::convert::FromSpecImpl;

verus! {

/// An item of a list, with the mark that says whether it is selected.
#[derive(Debug, Default)]
pub struct ToggleableItem<T> {
    pub item: T,
    pub state: bool,
}

impl<T: Clone> Clone for ToggleableItem<T> {
    fn clone(&self) -> (copy: ToggleableItem<T>)
        ensures
            cloned(self.item, copy.item),
            copy.state == self.state,
    {
        ToggleableItem { item: self.item.clone(), state: self.state }
    }
}

impl<T: PartialEq> PartialEq for ToggleableItem<T> {
    /// Two entries are equal where their items are: the marks are not compared.
    fn eq(&self, other: &ToggleableItem<T>) -> (b: bool) {
        self.item == other.item
    }
}

impl<T: PartialEq> PartialEqSpecImpl for ToggleableItem<T> {
    open spec fn obeys_eq_spec() -> bool {
        T::obeys_eq_spec()
    }

    open spec fn eq_spec(&self, other: &ToggleableItem<T>) -> bool {
        self.item.eq_spec(&other.item)
    }
}

impl<T> From<T> for ToggleableItem<T> {
    fn from(value: T) -> (entry: ToggleableItem<T>) {
        ToggleableItem { item: value, state: false }
    }
}

impl<T> FromSpecImpl<T> for ToggleableItem<T> {
    open spec fn obeys_from_spec() -> bool {
        true
    }

    open spec fn from_spec(value: T) -> ToggleableItem<T> {
        ToggleableItem { item: value, state: false }
    }
}

/// Whether `fresh` holds an item equal to `item`.
pub open spec fn listed<T: PartialEq>(fresh: Seq<T>, item: T) -> bool {
    exists|k: int| 0 <= k < fresh.len() && (#[trigger] fresh[k]).eq_spec(&item)
}

/// Whether `items` holds an entry whose item equals `item`.
pub open spec fn held<T: PartialEq>(items: Seq<ToggleableItem<T>>, item: T) -> bool {
    exists|k: int| 0 <= k < items.len() && (#[trigger] items[k]).item.eq_spec(&item)
}

/// The list `items` after its first `upto` entries have been looked at in turn: for each
/// whose item `fresh` no longer holds, the entry that stands at that entry's first position
/// by then has been taken out.
pub open spec fn pruned<T: PartialEq>(
    items: Seq<ToggleableItem<T>>,
    fresh: Seq<T>,
    upto: nat,
) -> Seq<ToggleableItem<T>>
    decreases upto,
{
    if upto == 0 {
        items
    } else {
        let before = pruned(items, fresh, (upto - 1) as nat);
        if listed(fresh, items[upto - 1].item) {
            before
        } else {
            before.remove(upto - 1)
        }
    }
}

/// Whether, each time an entry has to be taken out, the list is still long enough to hold
/// an entry at that position.
pub open spec fn can_prune<T: PartialEq>(items: Seq<ToggleableItem<T>>, fresh: Seq<T>) -> bool {
    forall|i: int|
        0 <= i < items.len() && !listed(fresh, (#[trigger] items[i]).item) ==> i < pruned(
            items,
            fresh,
            i as nat,
        ).len()
}

/// The list `items` after the first `upto` items of `fresh` have been looked at in turn:
/// each that the list did not hold by then has been added at its end, not selected.
pub open spec fn extended<T: PartialEq>(
    items: Seq<ToggleableItem<T>>,
    fresh: Seq<T>,
    upto: nat,
) -> Seq<ToggleableItem<T>>
    decreases upto,
{
    if upto == 0 {
        items
    } else {
        let before = extended(items, fresh, (upto - 1) as nat);
        if held(before, fresh[upto - 1]) {
            before
        } else {
            before.push(ToggleableItem { item: fresh[upto - 1], state: false })
        }
    }
}

/// The list `items` brought up to date with `fresh`: first pruned, and then, if `fresh` is
/// longer than what is left, extended.
pub open spec fn updated<T: PartialEq>(items: Seq<ToggleableItem<T>>, fresh: Seq<T>) -> Seq<
    ToggleableItem<T>,
> {
    let kept = pruned(items, fresh, items.len());
    if fresh.len() <= kept.len() {
        kept
    } else {
        extended(kept, fresh, fresh.len())
    }
}

/// Whether `fresh` holds an item equal to `item`.
pub fn is_listed<T: PartialEq>(fresh: &Vec<T>, item: &T) -> (found: bool)
    requires
        T::obeys_eq_spec(),
    ensures
        found == listed(fresh@, *item),
{
    let mut k: usize = 0;
    while k < fresh.len()
        invariant
            T::obeys_eq_spec(),
            k <= fresh.len(),
            forall|j: int| 0 <= j < k ==> !(#[trigger] fresh@[j]).eq_spec(item),
        decreases fresh.len() - k,
    {
        if fresh[k] == *item {
            return true;
        }
        k += 1;
    }
    false
}

/// Whether `items` holds an entry whose item equals `item`.
pub fn is_held<T: PartialEq>(items: &Vec<ToggleableItem<T>>, item: &T) -> (found: bool)
    requires
        T::obeys_eq_spec(),
    ensures
        found == held(items@, *item),
{
    let mut k: usize = 0;
    while k < items.len()
        invariant
            T::obeys_eq_spec(),
            k <= items.len(),
            forall|j: int| 0 <= j < k ==> !(#[trigger] items@[j]).item.eq_spec(item),
        decreases items.len() - k,
    {
        if items[k].item == *item {
            return true;
        }
        k += 1;
    }
    false
}

/// Whether the list can be brought up to date with `fresh`: whether, each time an entry has
/// to be taken out, the list is still long enough.
pub fn can_update_items<T: PartialEq>(items: &Vec<ToggleableItem<T>>, fresh: &Vec<T>) -> (ok: bool)
    requires
        T::obeys_eq_spec(),
    ensures
        ok == can_prune(items@, fresh@),
{
    let mut left: usize = items.len();
    let mut i: usize = 0;
    while i < items.len()
        invariant
            T::obeys_eq_spec(),
            i <= items.len(),
            left == pruned(items@, fresh@, i as nat).len(),
            left <= items.len(),
            forall|j: int|
                0 <= j < i && !listed(fresh@, (#[trigger] items@[j]).item) ==> j < pruned(
                    items@,
                    fresh@,
                    j as nat,
                ).len(),
        decreases items.len() - i,
    {
        if !is_listed(fresh, &items[i].item) {
            if i >= left {
                return false;
            }
            left -= 1;
        }
        i += 1;
    }
    true
}

/// Brings a list of entries up to date with the items that exist now.
///
/// The entries are looked at in their order. For each whose item is no longer among
/// `fresh`, the entry that stands at that entry's first position by then is taken out.
/// After that, if `fresh` is longer than the list, each of its items that the list does not
/// hold is added at the end, not selected. The entries that stay keep their marks.
pub fn update_items<T: PartialEq>(items: &mut Vec<ToggleableItem<T>>, fresh: Vec<T>)
    requires
        T::obeys_eq_spec(),
        can_prune(old(items)@, fresh@),
    ensures
        final(items)@ == updated(old(items)@, fresh@),
{
    let count: usize = items.len();
    let mut gone: Vec<bool> = Vec::new();
    let mut i: usize = 0;
    while i < count
        invariant
            T::obeys_eq_spec(),
            count == items.len(),
            items@ == old(items)@,
            i <= count,
            gone.len() == i,
            forall|j: int| 0 <= j < i ==> gone@[j] == !listed(fresh@, (#[trigger] items@[j]).item),
        decreases count - i,
    {
        gone.push(!is_listed(&fresh, &items[i].item));
        i += 1;
    }
    i = 0;
    while i < count
        invariant
            count == old(items)@.len(),
            i <= count,
            gone.len() == count,
            can_prune(old(items)@, fresh@),
            forall|j: int|
                0 <= j < count ==> gone@[j] == !listed(fresh@, (#[trigger] old(items)@[j]).item),
            items@ == pruned(old(items)@, fresh@, i as nat),
        decreases count - i,
    {
        if gone[i] {
            assert(!listed(fresh@, old(items)@[i as int].item));
            items.remove(i);
        }
        i += 1;
    }
    if fresh.len() <= items.len() {
        return;
    }
    let ghost kept = items@;
    let ghost all = fresh@;
    for item in it: fresh
        invariant
            T::obeys_eq_spec(),
            it.seq() == all,
            items@ == extended(kept, all, it.index() as nat),
    {
        if !is_held(items, &item) {
            items.push(ToggleableItem { item, state: false });
        }
    }
}

impl<T: Clone> ToggleableItem<T> {
    /// An entry that is not selected, for a copy of `item`.
    pub fn from_item(item: &T) -> (entry: ToggleableItem<T>)
        ensures
            cloned(*item, entry.item),
            !entry.state,
    {
        ToggleableItem { item: item.clone(), state: false }
    }

    /// A copy of the item of this entry.
    pub fn unwrap(&self) -> (item: T)
        ensures
            cloned(self.item, item),
    {
        self.item.clone()
    }
}

} // verus!
