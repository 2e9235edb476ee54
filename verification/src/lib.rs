//! Fetch-and-reconcile pipeline for a university grade portal.
//!
//! The library holds the verified logic of the pipeline: the login gate, the
//! semester catalog, the filter built from it, the tolerant JSON-to-`Grade`
//! extraction and the snapshot comparison. The HTTP driver around it lives
//! outside the library and hands it plain strings.

pub mod catalog;
pub mod error;
pub mod grade;
pub mod json;
pub mod session;

pub use catalog::SemesterInfo;
pub use error::Error;
pub use grade::Grade;
pub use grade::SemesterGrade;
pub use json::JNum;
pub use json::JVal;
