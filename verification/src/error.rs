use vstd::prelude::*;

verus! {

/// An error of the application: a fixed message for the log.
#[derive(Debug)]
pub struct AppError(pub &'static str);

impl AppError {
    /// The message of the error.
    pub fn description(&self) -> (text: &str)
        ensures
            text@ == self.0@,
    {
        self.0
    }

    /// The text that a log line shows for the error: its message, unchanged.
    pub fn to_string(&self) -> (text: String)
        ensures
            text@ == self.0@,
    {
        self.0.to_string()
    }
}

} // verus!
