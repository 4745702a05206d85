//! The concrete wire formats: a serialize-only content-fingerprinting binding
//! and a bidirectional protobuf binding.

pub mod key_fingerprint;
pub mod protobuf;
