//! Block execution pipeline and bottom-up checkpointing for a subnet node.
//!
//! The crate holds the decisions of the node: which system messages a block
//! needs, how a delivered message is executed, when a checkpoint is due and
//! which checkpoints still await this validator's signature. Work that only
//! the surrounding runtime can do (running the virtual machine, signing,
//! talking to the network) is described by the actions that the functions
//! here hand out, and comes back as plain values.

pub mod address;
pub mod broadcast;
pub mod checkpoint;
pub mod injector;
pub mod interpreter;
pub mod keys;
pub mod message;
pub mod network;
pub mod provider;
pub mod validator;
