//! MuxDeck: the protocol, authentication and layout logic of a LAN macro deck.
pub mod engine;
pub mod input;
pub mod keyed;
pub mod primitives;
pub mod protocol;
pub mod text;
