//! The core of a checkpoint indexer: what it asks of a full node for one
//! checkpoint, how it turns the answer into normalized records, and what its
//! three stages decide between one step and the next.

pub mod assembler;
pub mod chunks;
pub mod consistency;
pub mod epoch;
pub mod epoch_event;
pub mod errors;
pub mod ids;
pub mod indexer;
pub mod object_changes;
pub mod pipeline;
pub mod pipeline_model;
pub mod records;
pub mod types;
