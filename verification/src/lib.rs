//! Hybrid encryption library: RSA-4096 key wrapping around AES-256-GCM bulk
//! encryption, with a content-addressed hash and a verified message queue.

pub mod engine;
pub mod primitives;
pub mod processor;
