//! The shipping engine: naming, buffering, routing, scheduling, flushing.

pub mod flush;
pub mod ingest;
pub mod object_key;
pub mod output;
pub mod output_view;
pub mod scheduler;
pub mod text;
pub mod timings;
