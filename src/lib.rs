//! The SoupBinTCP 4.0 session layer: fixed-width fields, the frame and message codec,
//! what each side tracks of its connection and session, and the login, heartbeat,
//! replay and disconnect policies of clients and servers.
pub mod types;
pub mod payload;
pub mod model;
pub mod error;
pub mod codec;
pub mod state;
pub mod protocol;
pub mod samples;
