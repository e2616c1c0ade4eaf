//! Client-side logic for a line-oriented, text-based control protocol used to
//! command and query a media-playback daemon over one persistent connection.
//!
//! This crate holds the protocol logic itself: greeting validation, response
//! framing (body lines up to the `OK` sentinel, `ACK [` error detection),
//! decoding of `key: value` response blocks into typed records, and the
//! command lines for each supported request. Transport (sockets, buffered
//! reads and writes, timeouts) is left to the caller, who hands lines in and
//! takes typed values back.

pub mod command;
pub mod error;
pub mod framer;
pub mod handshake;
pub mod kv;
pub mod num;
pub mod playback;
pub mod stats;
pub mod status;
pub mod text;
