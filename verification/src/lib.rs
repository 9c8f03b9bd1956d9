//! Decoding and classification of VAA messages: the signed attestations that a
//! cross-chain messaging network issues for events on a source chain.

pub mod classify;
pub mod codec;
pub mod chain;
pub mod emitter;
pub mod error;
pub mod guardian;
pub mod payload;
pub mod render;
pub mod text;
pub mod vaa;
pub mod wire;
