//! The session side of a small MQTT publisher: what a session is configured
//! with, what it may do in each state, what it asks the protocol client to
//! publish, and how it reports failures in a bounded amount of memory.
//!
//! Nothing here touches a transport. The caller performs the handshake and
//! the publication with the protocol client and hands their outcomes to the
//! session, which decides.

pub mod error;
pub mod reason;
pub mod text;
pub mod writer;
