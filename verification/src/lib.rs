//! The library side of a foreign-call bridge to a remote-desktop engine.
//!
//! Everything here works on plain values. The host-facing function table, the
//! raw pointers it trades in, the engine calls and the process-wide state
//! cell live with the caller; this crate holds the rules they follow:
//!
//! * [`strings`]: host-owned and bridge-owned strings and the text between
//!   them;
//! * [`shield`]: what an entry point returns when its work was cut short;
//! * [`lifecycle`]: the start/stop state machine of the background server;
//! * [`rendezvous`]: the answers to the queries that wait for the network,
//!   with their fallbacks;
//! * [`options`]: the configuration options as one JSON payload;
//! * [`json`]: the JSON documents behind those payloads, as `serde_json`
//!   builds and writes them.

pub mod json;
pub mod lifecycle;
pub mod options;
pub mod rendezvous;
pub mod shield;
pub mod strings;
