//! Engine-facing data and policy: the owned composition output of engine
//! processes, the engine protocol model, and the process backend's request
//! and recovery policy.
pub mod composition;
pub mod types;
pub mod protocol;
pub mod process;
pub mod reply;
pub mod observe;
pub mod deadline;
