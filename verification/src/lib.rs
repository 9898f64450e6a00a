//! BLE bridge core: an emulated Apple Notification Center Service (ANCS)
//! server and the client-side session bootstrap for a wearable peer.
//!
//! The crate holds the protocol logic of the bridge: wire-exact ANCS payload
//! building and parsing, characteristic-role resolution, the serialized send
//! path, and the connection/session state machines. Radio I/O, the async
//! executor and the GUI stay outside; they feed events into these types and
//! carry out the actions they return.

pub mod allocator;
pub mod bytes;
pub mod codec;
pub mod error;
pub mod identity;
pub mod pointer;
pub mod resolver;
pub mod scanner;
pub mod serializer;
pub mod server;
pub mod session;
