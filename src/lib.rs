//! Lifecycle of downloadable model files: scanning a models directory against
//! a catalog with a size tolerance, a status registry, the decisions of a
//! streaming download with throttled progress and cooperative cancellation,
//! and a check of the file's format signature.

pub mod types;
pub mod validate;
pub mod scan;
pub mod download;
pub mod manager;
pub mod laws;
