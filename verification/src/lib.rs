//! Wrapping protocol of a one-shot snippet harness: user code is re-indented
//! and embedded in a fixed program skeleton, and every failure of the harness
//! itself is reported as one structured response line.

pub mod harness;
pub mod json;
pub mod request;
pub mod response;
pub mod text;
pub mod wrapper;
