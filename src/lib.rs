//! Device bridge: the binary control protocol spoken by remote cameras, the
//! framing of packets on a byte stream, the per-connection state machine,
//! the two-stage device registration handshake, the session table and the
//! decisions of the account routes.
pub mod bridge;
pub mod connection;
pub mod frame;
pub mod model;
pub mod packets;
pub mod registration;
pub mod session;
pub mod user_routes;
