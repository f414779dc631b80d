//! The fault of a unit that could not answer.

use vstd::prelude::*;

verus! {

/// Catch-all error: the description of what went wrong.
#[derive(Debug, Clone, PartialEq, Eq, Hash)]
pub struct SystemError {
    pub message: String,
}

impl From<String> for SystemError {
    fn from(message: String) -> (r: Self) {
        Self { message }
    }
}

impl vstd::std_specs::convert::FromSpecImpl<String> for SystemError {
    open spec fn obeys_from_spec() -> bool {
        true
    }

    open spec fn from_spec(message: String) -> Self {
        SystemError { message }
    }
}

impl SystemError {
    /// The description, as it is shown to the user.
    pub fn to_text(&self) -> (r: String)
        ensures
            r@ == self.message@,
    {
        self.message.clone()
    }
}

} // verus!
