//! Errors of the wrappers.
use vstd::prelude::*;

verus! {

/// What can go wrong when a wrapper is asked to do something.
#[derive(Debug, PartialEq, Eq)]
pub enum Error {
    /// A required C entry point was not found; holds its C name.
    MissingSymbol(String),
    /// Any other failure, with a message.
    Other(String),
}

} // verus!
