//! The error that the components of this library report.

use vstd::prelude::*;

verus! {

/// A failure inside a component, described by a message.
#[derive(Debug, Clone, PartialEq, Eq)]
pub struct ComponentError {
    /// What went wrong, as shown to the user.
    pub message: String,
}

impl View for ComponentError {
    type V = Seq<char>;

    /// A component error is seen as its message.
    open spec fn view(&self) -> Seq<char> {
        self.message@
    }
}

impl ComponentError {
    /// A component error with the given message.
    pub fn new(message: &str) -> (err: Self)
        ensures
            err@ == message@,
    {
        ComponentError { message: message.to_owned() }
    }

    /// The text shown for this error: its message and nothing else.
    pub fn to_string(&self) -> (text: String)
        ensures
            text@ == self@,
    {
        self.message.clone()
    }
}

} // verus!
