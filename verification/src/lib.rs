//! Verified core of a small MQTT sensor client.
//!
//! The client publishes a reading of a synthetic sensor every few seconds and
//! shows every reading that arrives on the same topic. What it decides is
//! here, as two state machines with their laws; what it performs (the clock,
//! the JSON codec, the connection, the sleeping and the printing) is the
//! caller's.

pub mod broker;
pub mod error;
pub mod publisher;
pub mod reading;
pub mod subscriber;
pub mod trace;
