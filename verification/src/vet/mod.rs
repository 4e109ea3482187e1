//! Conformance vetting of engines: the report model and the command line.
pub mod check;
pub mod cli;
pub mod resource;
pub mod behavior;
