//! Message types of the probe-proxy channel.
//!
//! The debug-probe driver can run in a different OS and be reached over a
//! byte-stream channel.  These are the plain values that travel over that
//! channel; the application owns their serialized form and the transport.

pub mod daemon;
pub mod request;
pub mod response;
