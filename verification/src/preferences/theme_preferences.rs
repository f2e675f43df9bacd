//! The choice between the light and the dark theme.
use vstd::prelude::*;

verus! {

/// The theme settings. The theme itself is kept by the user interface.
#[derive(Clone, Copy, Debug, PartialEq, Eq, Structural)]
pub struct ThemePreferences {}

impl ThemePreferences {
    /// The theme settings.
    pub fn new() -> (preferences: ThemePreferences)
        ensures
            preferences == (ThemePreferences {  }),
    {
        ThemePreferences {  }
    }

    /// The label of these settings in the list of preferences.
    pub fn name(&self) -> (label: &'static str)
        ensures
            label == "\u{2600} Theme",
    {
        "\u{2600} Theme"
    }
}

} // verus!
