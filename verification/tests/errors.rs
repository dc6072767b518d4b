//! Tests for the error messages of the pipeline's edges.

use txengine::csv::reader::CSVReaderError;
use txengine::csv::writer::CSVWriterError;

#[test]
fn reader_error_message() {
    let e = CSVReaderError::CSVReadingError;
    assert_eq!(e.message(), "error reading from csv");
}

#[test]
fn writer_error_messages() {
    assert_eq!(CSVWriterError::FlushingError.message(), "Error flushing the output file");
    assert_eq!(
        CSVWriterError::FileWritingError.message(),
        "Error writing in the output file"
    );
}
