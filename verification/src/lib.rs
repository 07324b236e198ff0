//! Safety logic for an interactive bulk bucket-deletion tool.
//!
//! The library holds the parts of the tool that make decisions: the validator
//! chain that gates which buckets an operator may select for deletion, the
//! batch executor that empties and deletes each confirmed bucket while
//! isolating per-bucket failures, and the workflow controller that drives
//! enumeration, selection, confirmation and execution. Talking to the storage
//! backend and to the terminal is left to the surrounding binary, which feeds
//! results back into these state machines as plain values.

pub mod executor;
pub mod validate;
pub mod workflow;
