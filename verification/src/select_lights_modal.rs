//! The choice of the lights that take part in a move.
use vstd::prelude::*;
use vstd::string::StringExecFns;
use crate::light::Light;
use crate::toggleable_item::{can_prune, update_items, updated, ToggleableItem};

verus! {

/// The lights that can be chosen, any number of which may be selected.
#[derive(Debug)]
pub struct SelectLightsModal {
    pub shown: bool,
    pub toggleable_lights: Vec<ToggleableItem<Light>>,
    pub title: String,
}

/// The items of the selected entries, in the order of the list.
pub open spec fn selected_items<T>(items: Seq<ToggleableItem<T>>) -> Seq<T>
    decreases items.len(),
{
    if items.len() == 0 {
        Seq::<T>::empty()
    } else if items.last().state {
        selected_items(items.drop_last()).push(items.last().item)
    } else {
        selected_items(items.drop_last())
    }
}

impl SelectLightsModal {
    /// A hidden choice with no lights, under the given title.
    pub fn new(title: &str) -> (modal: SelectLightsModal)
        ensures
            !modal.shown,
            modal.toggleable_lights@.len() == 0,
            modal.title@ == title@,
    {
        SelectLightsModal {
            shown: false,
            toggleable_lights: Vec::new(),
            title: String::from_str(title),
        }
    }

    /// Brings the choice up to date with the lights that exist now: entries of lights that
    /// are gone leave, new lights are added unselected, and the entries that stay keep their
    /// marks.
    pub fn update_lights(&mut self, lights: Vec<Light>)
        requires
            can_prune(old(self).toggleable_lights@, lights@),
        ensures
            final(self).toggleable_lights@ == updated(old(self).toggleable_lights@, lights@),
            final(self).shown == old(self).shown,
            final(self).title == old(self).title,
    {
        update_items(&mut self.toggleable_lights, lights);
    }

    /// Gets the selected lights, in the order of the list. The result is empty if no light
    /// is selected.
    pub fn get_selected_lights(&self) -> (lights: Vec<Light>)
        ensures
            lights@ == selected_items(self.toggleable_lights@),
    {
        let mut lights: Vec<Light> = Vec::new();
        let mut i: usize = 0;
        while i < self.toggleable_lights.len()
            invariant
                i <= self.toggleable_lights.len(),
                lights@ == selected_items(self.toggleable_lights@.subrange(0, i as int)),
            decreases self.toggleable_lights.len() - i,
        {
            assert(self.toggleable_lights@.subrange(0, i + 1).drop_last()
                =~= self.toggleable_lights@.subrange(0, i as int));
            if self.toggleable_lights[i].state {
                lights.push(self.toggleable_lights[i].unwrap());
            }
            i += 1;
        }
        assert(self.toggleable_lights@.subrange(0, i as int) =~= self.toggleable_lights@);
        lights
    }
}

} // verus!
