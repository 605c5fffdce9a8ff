//! Failures that the bridge reports to host code.

use vstd::prelude::*;
use vstd::string::*;

verus! {

/// What can go wrong when host code runs script code.
#[derive(Clone, Debug, PartialEq, Eq)]
pub enum Error {
    /// The engine raised an error while it ran; the text is the engine's.
    LuaRuntimeError(String),
    /// A call was asked for, but the value on top of the stack cannot be called.
    InvalidFunction,
}

/// The fixed text of [`Error::InvalidFunction`].
pub open spec fn invalid_function_text() -> Seq<char> {
    "Thing at the top is not a function."@
}

impl Error {
    /// The text that a reader of the error sees.
    pub open spec fn spec_message(&self) -> Seq<char> {
        match self {
            Error::LuaRuntimeError(message) => message@,
            Error::InvalidFunction => invalid_function_text(),
        }
    }

    /// Renders the error: the engine's own words for a runtime error, a fixed
    /// sentence for a value that cannot be called.
    pub fn message(&self) -> (text: String)
        ensures
            text@ == self.spec_message(),
    {
        match self {
            Error::LuaRuntimeError(message) => message.clone(),
            Error::InvalidFunction => String::from_str("Thing at the top is not a function."),
        }
    }
}

} // verus!
