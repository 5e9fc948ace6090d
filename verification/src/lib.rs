//! Connection-lifecycle and forwarding engine of a bridge between a
//! publish/subscribe broker and the control channel of an agent on the same
//! machine.
//!
//! Commands that arrive on one topic of the broker are sent into the
//! agent's channel as they are; what the agent writes to the channel is
//! published on another topic as it is. Either side may lose its connection
//! at any time and gets a new one, however long that takes.
//!
//! The engine performs no I/O. Each of the two forwarders is a state machine
//! with a driver: the forwarder hands out a list of commands, the driver
//! performs them in order and reports the outcome of the last one, and the
//! forwarder answers with the next list. The two forwarders are driven
//! independently of each other, and meet only in the connection to the
//! agent, which one of them replaces and both use.

pub mod bootstrap;
pub mod broker;
pub mod channel;
pub mod config;
pub mod inbound;
pub mod inbound_runs;
pub mod message;
pub mod outbound;
pub mod outbound_runs;
pub mod sequences;
