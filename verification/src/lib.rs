//! Buffering, partitioning and remote-append engine of a structured-event
//! log shipper.
//!
//! Serialized records are queued in an [`layer::output::Output`], drained on
//! a timer, appended to a keyed remote object, and moved on to the next part
//! once that object has grown past its size limit.  Everything here works on
//! plain values; sleeping, locking and the transport itself are left to the
//! embedding program.

pub mod config;
pub mod layer;
pub mod s3_helpers;
pub mod trusted;
