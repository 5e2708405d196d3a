//! The core of a YouTube Music cast receiver that plays through a music daemon.
//!
//! The library decides and computes; it performs no input or output. [`player`] turns the phone's
//! commands into operations on the daemon and messages to the phone. [`innertube`] looks up a
//! track's title and length. [`sabr`] streams a track's audio: it finds the streaming data, chooses
//! the formats, composes the requests, takes the answers apart and keeps the session going.
pub mod command_laws;
pub mod http;
pub mod innertube;
pub mod json;
pub mod lookup_laws;
pub mod memory;
pub mod messages;
pub mod player;
pub mod player_laws;
pub mod player_response;
pub mod playlist;
pub mod sabr;
pub mod text;
pub mod text_laws;
pub mod view_laws;
