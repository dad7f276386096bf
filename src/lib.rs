//! Zero-configuration discovery of a coordinating server over IP multicast,
//! followed by a two-message unicast handshake that binds a random worker
//! identity to the server's address, with a bounded retry policy.
//!
//! The library holds the protocol's logic: the wire formats, the checks on
//! what arrives, and the state machine that decides what the worker does
//! next. Sockets, clocks and process exit belong to the caller, which performs
//! the actions the state machine returns and feeds back what it observed.

pub mod address;
pub mod identity;
pub mod message;
pub mod session;
pub mod guarantees;

pub use address::{discovery_endpoint, same_ip, Endpoint, IpAddress, DISCOVERY_GROUP_V4, DISCOVERY_GROUP_V6, DISCOVERY_PORT};
pub use identity::WorkerIdentity;
pub use message::{ack_payload, check_ack, handshake_payload, parse_announcement, HandshakeError};
pub use session::{Action, Event, FailReason, Phase, RetryConfig, Session};
