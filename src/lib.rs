//! Core of a realtime media link: a QUIC connection manager with a reliable,
//! framed main stream, the decisions of a low-latency audio output driver,
//! and the message taxonomy between the workers.
pub mod audio;
pub mod communication;
pub mod config;
pub mod connection;
pub mod engine;
