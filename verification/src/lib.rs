//! A verified pipeline that restores an encoded database dump, extracts a
//! result set, and reports it back to a challenge service.
//!
//! The library holds the logic of the pipeline: decoding the transport
//! encoding of the dump, validating configuration, building the submission
//! payload, and the orchestration state machine that fixes the order of the
//! stages. The surrounding I/O (HTTP, the restore subprocess, the database
//! connection) lives outside the library and drives the state machine.

pub mod config;
pub mod payload;
pub mod pipeline;
pub mod submission;
