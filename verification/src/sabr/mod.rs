//! Streams audio with the SABR protocol.
pub mod client;
pub mod encoding;
pub mod error;
pub mod formats;
pub mod laws;
pub mod numbers;
pub mod part_laws;
pub mod parts;
pub mod player_data;
pub mod proto;
pub mod request_laws;
pub mod session;
pub mod state;
pub mod ump;
