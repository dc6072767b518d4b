//! The error of the decoder that turns the tabular text input into
//! instructions. A decode failure is fatal to the whole pipeline.

use vstd::prelude::*;

verus! {

/// What can go wrong while reading the tabular input.
#[derive(Debug)]
pub enum CSVReaderError {
    /// A malformed or unreadable input row.
    CSVReadingError,
}

impl CSVReaderError {
    /// Returns the message for the error.
    pub fn message(&self) -> (r: &str)
        ensures
            r@ == "error reading from csv"@,
    {
        match self {
            CSVReaderError::CSVReadingError => "error reading from csv",
        }
    }
}

} // verus!
