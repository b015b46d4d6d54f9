//! Reporting the outcome of a Discord request whose result nothing else uses.
use vstd::prelude::*;

verus! {

/// The outcome of a Discord request that the bot sends and forgets: a
/// failure is reported, a success is not.
pub trait SerenityErrorHandler {
    /// Whether the outcome is a failure, which the bot then reports.
    fn handle_result(&self) -> bool;
}

impl<T, E> SerenityErrorHandler for Result<T, E> {
    fn handle_result(&self) -> (failed: bool)
        ensures
            failed == (*self is Err),
    {
        match self {
            Ok(_) => false,
            Err(_) => true,
        }
    }
}

} // verus!
