//! Secure messaging core: message metadata, codecs, sealed envelopes and the
//! request/reply event loops that drive scalability-protocol sockets.

pub mod aio;
pub mod codec;
pub mod crypto;
pub mod envelope;
pub mod frame;
pub mod ids;
pub mod logconfig;
pub mod message;
pub mod metadata;
pub mod service;
pub mod settings;
pub mod wire;
