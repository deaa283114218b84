//! Decision logic of a stand-alone wireless access point that answers a
//! minimal request over a single TCP connection.
//!
//! Every component is a small state machine: it is told what happened and
//! answers with the next operation to perform. The code that drives the radio,
//! the timers and the socket performs those operations and reports back.

pub mod buffer;
pub mod connection;
pub mod failure;
pub mod framing;
pub mod gateway;
pub mod lifecycle;
pub mod startup;
pub mod supervisor;
