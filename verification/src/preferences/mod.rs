//! The preferences window: a list of pages, of which one is open at a time.
pub mod osc_preferences;
pub mod theme_preferences;

use vstd::prelude::*;
use crate::preferences::osc_preferences::OscPreferences;
use crate::preferences::theme_preferences::ThemePreferences;
use crate::toggleable_item::ToggleableItem;

verus! {

/// A page of the preferences window.
#[derive(Clone, Copy, Debug, PartialEq)]
pub enum PreferenceItemEnum {
    OscPreferences(OscPreferences),
    ThemePreferences(ThemePreferences),
}

impl PreferenceItemEnum {
    /// The page as it is once it has taken over the stored addresses: the address page
    /// holds them, every other page is as before.
    pub open spec fn updated(self, stored: OscPreferences) -> PreferenceItemEnum {
        match self {
            PreferenceItemEnum::OscPreferences(_) => PreferenceItemEnum::OscPreferences(stored),
            PreferenceItemEnum::ThemePreferences(theme) => PreferenceItemEnum::ThemePreferences(
                theme,
            ),
        }
    }

    /// Brings the page up to date with what is stored in the configuration.
    pub fn update(&mut self, stored: &OscPreferences)
        ensures
            *final(self) == old(self).updated(*stored),
    {
        match self {
            PreferenceItemEnum::OscPreferences(osc) => {
                osc.update(stored);
            },
            PreferenceItemEnum::ThemePreferences(_) => {},
        }
    }

    /// The label of the page in the list of preferences.
    pub fn name(&self) -> (label: &'static str)
        ensures
            label == match *self {
                PreferenceItemEnum::OscPreferences(_) => "\u{1F5A7} OSC",
                PreferenceItemEnum::ThemePreferences(_) => "\u{2600} Theme",
            },
    {
        match self {
            PreferenceItemEnum::OscPreferences(osc) => osc.name(),
            PreferenceItemEnum::ThemePreferences(theme) => theme.name(),
        }
    }
}

/// The preferences window: whether it is on screen, and its pages.
#[derive(Debug, Default)]
pub struct Preferences {
    pub shown: bool,
    pub preference_items: Vec<ToggleableItem<PreferenceItemEnum>>,
}

impl Preferences {
    /// The pages of a window in which none is open, each taking over the stored addresses.
    pub open spec fn updated_items(
        items: Seq<ToggleableItem<PreferenceItemEnum>>,
        stored: OscPreferences,
    ) -> Seq<ToggleableItem<PreferenceItemEnum>> {
        Seq::new(
            items.len(),
            |i: int| ToggleableItem { item: items[i].item.updated(stored), state: items[i].state },
        )
    }

    /// A hidden window with its two pages, the addresses and the theme, neither of them
    /// open.
    pub fn new() -> (window: Preferences)
        ensures
            !window.shown,
            window.preference_items@ == seq![
                ToggleableItem {
                    item: PreferenceItemEnum::OscPreferences(OscPreferences::default_spec()),
                    state: false,
                },
                ToggleableItem {
                    item: PreferenceItemEnum::ThemePreferences(ThemePreferences {  }),
                    state: false,
                },
            ],
    {
        let mut preference_items: Vec<ToggleableItem<PreferenceItemEnum>> = Vec::new();
        preference_items.push(
            ToggleableItem {
                item: PreferenceItemEnum::OscPreferences(OscPreferences::default()),
                state: false,
            },
        );
        preference_items.push(
            ToggleableItem {
                item: PreferenceItemEnum::ThemePreferences(ThemePreferences::new()),
                state: false,
            },
        );
        let window = Preferences { shown: false, preference_items };
        window
    }

    /// Whether the page at `index` is open now and was not open in `previous`, the list as
    /// it was before the last change.
    pub fn is_newly_open(
        &self,
        previous: &Vec<ToggleableItem<PreferenceItemEnum>>,
        index: usize,
    ) -> (newly: bool)
        ensures
            newly == (index < self.preference_items@.len() && self.preference_items@[index as int].state
                && !(index < previous@.len() && previous@[index as int].state)),
    {
        index < self.preference_items.len() && self.preference_items[index].state && !(index
            < previous.len() && previous[index].state)
    }

    /// Shows the window and brings its pages up to date with the stored addresses. Where
    /// the configuration could not be read, and `stored` is `None`, the pages stay as they
    /// are.
    pub fn show(&mut self, stored: Option<OscPreferences>)
        ensures
            final(self).shown,
            final(self).preference_items@ == match stored {
                Some(osc) => Preferences::updated_items(old(self).preference_items@, osc),
                None => old(self).preference_items@,
            },
    {
        self.shown = true;
        match stored {
            Some(osc) => {
                let mut i: usize = 0;
                while i < self.preference_items.len()
                    invariant
                        self.shown,
                        i <= self.preference_items.len(),
                        self.preference_items.len() == old(self).preference_items.len(),
                        forall|k: int|
                            0 <= k < i ==> #[trigger] self.preference_items@[k] == (ToggleableItem {
                                item: old(self).preference_items@[k].item.updated(osc),
                                state: old(self).preference_items@[k].state,
                            }),
                        forall|k: int|
                            i <= k < self.preference_items.len()
                                ==> #[trigger] self.preference_items@[k] == old(
                                self,
                            ).preference_items@[k],
                    decreases self.preference_items.len() - i,
                {
                    self.preference_items[i].item.update(&osc);
                    i += 1;
                }
            },
            None => {},
        }
    }
}

} // verus!
