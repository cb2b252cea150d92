//! A proof-of-work handshake: puzzles and their solutions, the message codec
//! and the two roles of the exchange as state machines.
pub mod handshake;
pub mod protocol;
pub mod solution;
