//! Errors of the pipeline's edges: the decoder that reads instructions from
//! a tabular text input and the emitter that writes the final account
//! snapshots. The reading and writing themselves are external collaborators;
//! the library only defines what can go wrong there.

pub mod reader;
pub mod writer;
