//! Errors of the servers that deliver a stream.

use vstd::prelude::*;

verus! {

#[derive(Debug)]
pub struct ServerError {
    pub value: ServerErrorValue,
}

#[derive(Debug, Clone, Copy, PartialEq, Eq, Structural)]
pub enum ServerErrorValue {
    Error,
}

impl ServerErrorValue {
    /// The error in words.
    pub fn describe(&self) -> (text: &'static str)
        ensures
            text@ == "server error"@,
    {
        "server error"
    }
}

} // verus!
