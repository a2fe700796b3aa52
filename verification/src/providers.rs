//! The error type of provider operations.
use vstd::prelude::*;

verus! {

/// Error type for provider operations: a message for the user.
#[derive(Debug, Clone)]
pub struct ProviderError(pub String);

impl ProviderError {
    /// The message this error carries.
    pub fn message(&self) -> (r: &str)
        ensures
            r@ == self.0@,
    {
        self.0.as_str()
    }
}

} // verus!
