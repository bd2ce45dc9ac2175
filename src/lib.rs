//! A bridge between a Sorel solar-heating controller's web API and an MQTT
//! broker: session handling, per-value fetch-and-decode, and the assembly of
//! the message that is published once per poll cycle.
//!
//! Every network and file operation is performed by the caller; the library
//! decides what to do with each result and which action comes next.
pub mod decode;
pub mod session;
pub mod text;
pub mod json;
pub mod sorel;
pub mod message;
pub mod poller;
