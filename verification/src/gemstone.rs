//! What the library offers to bindings for other languages.

use vstd::prelude::*;
use vstd::string::StringExecFns;

verus! {

/// The version of the library.
pub fn lib_version() -> (version: String)
    ensures
        version@ == "0.1.1"@,
{
    String::from_str("0.1.1")
}

/// An error handed across the binding, with its message.
#[derive(Debug, PartialEq, Eq)]
pub enum GemstoneError {
    AnyError { msg: String },
}

impl GemstoneError {
    /// The message of the error.
    pub fn to_string(&self) -> (text: String)
        ensures
            text@ == self->msg@,
    {
        match self {
            GemstoneError::AnyError { msg } => msg.clone(),
        }
    }
}

/// The greeting for `who`.
pub open spec fn greeting_of(who: Seq<char>) -> Seq<char> {
    "Hello, "@ + who + "!"@
}

/// Greets `who`.
pub fn greeting(who: &str) -> (text: String)
    ensures
        text@ == greeting_of(who@),
{
    let mut text = String::from_str("Hello, ");
    text.append(who);
    text.append("!");
    text
}

} // verus!
