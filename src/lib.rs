//! A safe client layer over an asynchronous speech-recognition engine.
//!
//! The library holds the logic of the client: the configuration builder and
//! its wire encoding, the chunked audio feeder, the callback guard that decides
//! which engine events reach the user, and the engine handle's lifecycle.

pub mod wire;
pub mod config;
pub mod feed;
pub mod guard;
pub mod session;
