//! The form in which a new light is entered.
use vstd::prelude::*;
use vstd::string::StringExecFns;
use crate::db::{check_light, StoreError};
use crate::light::Light;

verus! {

/// The light that is being entered, and whether the form is on screen.
pub struct AddLightWindow {
    pub current_light: Light,
    pub shown: bool,
}

impl AddLightWindow {
    /// A hidden form with a light that has not been filled in.
    pub fn new() -> (window: AddLightWindow)
        ensures
            window.current_light.is_default_spec(),
            !window.shown,
    {
        AddLightWindow { current_light: Light::default(), shown: false }
    }

    /// Whether the light as entered may be written to the store.
    pub fn check(&self) -> (checked: Result<(), StoreError>)
        ensures
            checked == if self.current_light.is_default_spec() {
                Err::<(), StoreError>(StoreError::LightDefault)
            } else {
                Ok(())
            },
    {
        check_light(&self.current_light)
    }

    /// What to tell the user once the light has been written.
    pub fn saved_message(&self) -> (text: String)
        ensures
            text@ == "Successfully added light "@ + self.current_light.name@,
    {
        let mut text = String::from_str("Successfully added light ");
        text.append(self.current_light.name.as_str());
        text
    }

    /// What to tell the user where writing the light failed for the reason `error`.
    pub fn failed_message(error: &str) -> (text: String)
        ensures
            text@ == "Failed to write light to database: "@ + error@,
    {
        let mut text = String::from_str("Failed to write light to database: ");
        text.append(error);
        text
    }
}

} // verus!
