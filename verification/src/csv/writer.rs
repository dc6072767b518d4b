//! The error of the emitter that serializes the final account snapshots to
//! the output sink. An emission failure aborts the emitter.

use vstd::prelude::*;

verus! {

/// What can go wrong while writing the final account snapshots.
#[derive(Debug)]
pub enum CSVWriterError {
    /// The output sink could not be flushed.
    FlushingError,
    /// A row could not be written to the output sink.
    FileWritingError,
}

impl CSVWriterError {
    /// Returns the message for the error.
    pub fn message(&self) -> (r: &str)
        ensures
            self is FlushingError ==> r@ == "Error flushing the output file"@,
            self is FileWritingError ==> r@ == "Error writing in the output file"@,
    {
        match self {
            CSVWriterError::FlushingError => "Error flushing the output file",
            CSVWriterError::FileWritingError => "Error writing in the output file",
        }
    }
}

} // verus!
