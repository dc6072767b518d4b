//! The two-stage transaction pipeline: the recorder stage, which persists
//! recordable instructions, and the applier stage, which applies effects to
//! the client accounts.

pub mod txprocessor;
