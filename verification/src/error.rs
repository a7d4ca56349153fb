use vstd::prelude::*;

verus! {

/// Failure to bring up a live backend during engine startup: the platform
/// layer could not be initialized (no driver support, resource exhaustion).
///
/// Recoverable at the caller, which may fall back to the disabled variant.
/// Distinct from the fatal signal the disabled variant raises when used.
pub struct BackendInitError {
    message: String,
}

impl BackendInitError {
    /// The failure description this error carries.
    pub closed spec fn text(&self) -> Seq<char> {
        self.message@
    }

    /// Wraps a description of why the platform layer refused to start.
    pub fn new(message: String) -> (e: Self)
        ensures
            e.text() == message@,
    {
        BackendInitError { message }
    }

    /// The failure description.
    pub fn message(&self) -> (m: &String)
        ensures
            m@ == self.text(),
    {
        &self.message
    }
}

} // verus!
