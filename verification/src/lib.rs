//! A one-to-one request/response session protocol built on raw notify and
//! publish primitives: the event vocabulary, the wire codec, and the two
//! peer state machines, each with a machine-checked contract.

pub mod events;
pub mod messages;
pub mod codec;
pub mod error;
pub mod channel;
pub mod client;
pub mod server;
