//! Probe-and-sampling engine of a network-quality probing tool.
//!
//! The crate builds and checks raw IPv4/IPv6 + TCP probe segments, decides
//! which inbound segment answers an outstanding probe, and turns the stream of
//! measured round-trip times into a bounded, multi-resolution series.
//!
//! - `checksum`, `packet`, `flags`, `address`: the packet codec.
//! - `probe`: the probe that is sent and the judgement of what comes back.
//! - `series`, `sampling`, `engine`: the sampling engine.
//! - `session`, `tools`: the session loop as a state machine, and the two
//!   probing tools that run it.
//! - `metrics`, `diagnostic`, `graph`, `options`, `connect`: what the front
//!   ends need decided: metric lines, verdicts, bar heights, the rules on
//!   options, and the settings of the client-server tools.

pub mod address;
pub mod checksum;
pub mod connect;
pub mod diagnostic;
pub mod engine;
pub mod flags;
pub mod graph;
pub mod metrics;
pub mod options;
pub mod packet;
pub mod probe;
pub mod sampling;
pub mod series;
pub mod session;
pub mod tools;
