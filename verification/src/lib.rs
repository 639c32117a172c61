//! A paginated log-event retrieval engine.
//!
//! The library fetches pages of log events from a remote log-aggregation
//! service through one of two backend query modes (a sequential read of a
//! single stream, or a pattern-filtered search over a group), normalizes the
//! raw records of either mode into one event model, and drives a
//! termination-detecting pagination state machine that turns the service's
//! token-based paging into a bounded sequence of event batches. Batches are
//! rendered by one of two sinks: a bare sink that prints only the message,
//! and a prefixed sink that prints a local-time prefix before each message.
//!
//! The remote calls themselves are performed by the caller, who implements
//! [`reader::LogEventsReader`]; everything that decides, normalizes and
//! formats lives here.

pub mod errors;
pub mod event;
pub mod options;
pub mod printer;
pub mod reader;
pub mod runner;
pub mod stream;
pub mod time;
