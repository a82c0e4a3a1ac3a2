//! Errors of the constructors and decoders.
use vstd::prelude::*;

verus! {

/// What went wrong when a value could not be built.
#[derive(Debug)]
pub enum Error {
    /// The input, shown as text, could not be turned into the named type.
    TryFrom(String, String),
    /// The text is not a well-formed hexadecimal wire form.
    Decode(String),
}

} // verus!
