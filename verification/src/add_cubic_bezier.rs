//! The form in which a new cubic curve is entered.
use vstd::prelude::*;
use vstd::string::StringExecFns;
use crate::db::{check_cubic_bezier, StoreError};
use crate::path::cubic_bezier::CubicBezier;

verus! {

/// The curve that is being entered, and whether the form is on screen.
pub struct AddCubicBezierWindow {
    pub current_cubic_bezier: CubicBezier,
    pub shown: bool,
}

impl AddCubicBezierWindow {
    /// A hidden form with a curve that has not been filled in.
    pub fn new() -> (window: AddCubicBezierWindow)
        ensures
            window.current_cubic_bezier.is_default_spec(),
            !window.shown,
    {
        AddCubicBezierWindow { current_cubic_bezier: CubicBezier::default(), shown: false }
    }

    /// Whether the curve as entered may be written to the store.
    pub fn check(&self) -> (checked: Result<(), StoreError>)
        ensures
            checked == if self.current_cubic_bezier.is_default_spec() {
                Err::<(), StoreError>(StoreError::CubicBezierDefault)
            } else {
                Ok(())
            },
    {
        check_cubic_bezier(&self.current_cubic_bezier)
    }

    /// What to tell the user once the curve has been written.
    pub fn saved_message(&self) -> (text: String)
        ensures
            text@ == "Successfully added a new cubic Bezier curve: "@ + self.current_cubic_bezier.name@,
    {
        let mut text = String::from_str("Successfully added a new cubic Bezier curve: ");
        text.append(self.current_cubic_bezier.name.as_str());
        text
    }

    /// What to tell the user where writing the curve failed for the reason `error`.
    pub fn failed_message(error: &str) -> (text: String)
        ensures
            text@ == "Failed to write cubic Bezier curve to database: "@ + error@,
    {
        let mut text = String::from_str("Failed to write cubic Bezier curve to database: ");
        text.append(error);
        text
    }
}

} // verus!
