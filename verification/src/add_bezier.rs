//! The form in which a new quadratic curve is entered.
use vstd::prelude::*;
use vstd::string::StringExecFns;
use crate::db::{check_bezier, StoreError};
use crate::path::bezier::Bezier;

verus! {

/// The curve that is being entered, and whether the form is on screen.
pub struct AddBezierWindow {
    pub current_bezier: Bezier,
    pub shown: bool,
}

impl AddBezierWindow {
    /// A hidden form with a curve that has not been filled in.
    pub fn new() -> (window: AddBezierWindow)
        ensures
            window.current_bezier.is_default_spec(),
            !window.shown,
    {
        AddBezierWindow { current_bezier: Bezier::default(), shown: false }
    }

    /// Whether the curve as entered may be written to the store.
    pub fn check(&self) -> (checked: Result<(), StoreError>)
        ensures
            checked == if self.current_bezier.is_default_spec() {
                Err::<(), StoreError>(StoreError::BezierDefault)
            } else {
                Ok(())
            },
    {
        check_bezier(&self.current_bezier)
    }

    /// What to tell the user once the curve has been written.
    pub fn saved_message(&self) -> (text: String)
        ensures
            text@ == "Successfully added a new Bezier curve: "@ + self.current_bezier.name@,
    {
        let mut text = String::from_str("Successfully added a new Bezier curve: ");
        text.append(self.current_bezier.name.as_str());
        text
    }

    /// What to tell the user where writing the curve failed for the reason `error`.
    pub fn failed_message(error: &str) -> (text: String)
        ensures
            text@ == "Failed to write Bezier curve to database: "@ + error@,
    {
        let mut text = String::from_str("Failed to write Bezier curve to database: ");
        text.append(error);
        text
    }
}

} // verus!
