//! Settings of a shipping session.

pub mod tracing_s3_config;
pub mod types;
