//! The form in which a new line is entered.
use vstd::prelude::*;
use vstd::string::StringExecFns;
use crate::db::{check_line, StoreError};
use crate::path::line::Line;

verus! {

/// The line that is being entered, and whether the form is on screen.
pub struct AddLineWindow {
    pub current_line: Line,
    pub shown: bool,
}

impl AddLineWindow {
    /// A hidden form with a line that has not been filled in.
    pub fn new() -> (window: AddLineWindow)
        ensures
            window.current_line.is_default_spec(),
            !window.shown,
    {
        AddLineWindow { current_line: Line::default(), shown: false }
    }

    /// Whether the line as entered may be written to the store.
    pub fn check(&self) -> (checked: Result<(), StoreError>)
        ensures
            checked == if self.current_line.is_default_spec() {
                Err::<(), StoreError>(StoreError::LineDefault)
            } else if self.current_line.name@.len() == 0 {
                Err(StoreError::LineUnnamed)
            } else {
                Ok(())
            },
    {
        check_line(&self.current_line)
    }

    /// What to tell the user once the line has been written.
    pub fn saved_message(&self) -> (text: String)
        ensures
            text@ == "Successfully added a new line: "@ + self.current_line.name@,
    {
        let mut text = String::from_str("Successfully added a new line: ");
        text.append(self.current_line.name.as_str());
        text
    }

    /// What to tell the user where writing the line failed for the reason `error`.
    pub fn failed_message(error: &str) -> (text: String)
        ensures
            text@ == "Failed to write line to database: "@ + error@,
    {
        let mut text = String::from_str("Failed to write line to database: ");
        text.append(error);
        text
    }
}

} // verus!
