//! Where input comes from.

use vstd::prelude::*;
use crate::strings::str_eq;

verus! {

/// The source that an input argument names.
#[derive(Debug, Clone, PartialEq, Eq)]
pub enum InputSource {
    /// Standard input.
    Stdin,
    /// The file of this name.
    File(String),
}

/// Resolves an input argument to its source. Nothing is opened.
pub fn resolve_input(input: &str) -> (source: InputSource)
    ensures
        match source {
            InputSource::Stdin => input@ == "-"@,
            InputSource::File(name) => input@ != "-"@ && name@ == input@,
        },
{
    if str_eq(input, "-") {
        InputSource::Stdin
    } else {
        InputSource::File(input.to_owned())
    }
}

} // verus!
