//! The choice of the path that a move follows.
use vstd::prelude::*;
use crate::only_one_toggleable_item::{first_selected, is_first_selected, none_selected};
use crate::path::PathEnum;
use crate::toggleable_item::{can_prune, update_items, updated, ToggleableItem};

verus! {

/// The paths that can be chosen, of which at most one is meant to be selected.
pub struct SelectPathModal {
    pub shown: bool,
    pub toggleable_paths: Vec<ToggleableItem<PathEnum>>,
}

impl SelectPathModal {
    /// A hidden choice with no paths.
    pub fn new() -> (modal: SelectPathModal)
        ensures
            !modal.shown,
            modal.toggleable_paths@.len() == 0,
    {
        SelectPathModal { shown: false, toggleable_paths: Vec::new() }
    }

    /// Brings the choice up to date with the paths that exist now: entries of paths that are
    /// gone leave, new paths are added unselected, and the entries that stay keep their marks.
    pub fn update_paths(&mut self, paths: Vec<PathEnum>)
        requires
            can_prune(old(self).toggleable_paths@, paths@),
        ensures
            final(self).toggleable_paths@ == updated(old(self).toggleable_paths@, paths@),
            final(self).shown == old(self).shown,
    {
        update_items(&mut self.toggleable_paths, paths);
    }

    /// Returns the currently selected path: the first selected one, if several are. If none
    /// is selected the result is `None`.
    pub fn get_selected_path(&self) -> (selected: Option<PathEnum>)
        ensures
            match selected {
                Some(path) => exists|p: int|
                    is_first_selected(self.toggleable_paths@, p) && path
                        == self.toggleable_paths@[p].item,
                None => none_selected(self.toggleable_paths@),
            },
    {
        match first_selected(&self.toggleable_paths) {
            Some(p) => Some(self.toggleable_paths[p].unwrap()),
            None => None,
        }
    }
}

} // verus!
