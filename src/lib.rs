//! Core of a desktop audio player: playlist navigation rules, the transport
//! controller's state machine and the streaming decode engine.
pub mod engine;
pub mod playlist;
pub mod transport;
