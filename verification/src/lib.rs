//! Serialization and deserialization (ser/de) mechanisms, selectable by
//! wire format at compile time.
//!
//! A [`traits::Schema`] names a logical source value type, a
//! [`traits::SerializationFormat`] names a wire representation, and a binding
//! type pairs the two and exposes typed [`traits::Serializer`] and
//! [`traits::Deserializer`] capabilities. Two bindings are provided: a
//! content-fingerprinting format that serializes a source value into its
//! hex-encoded fingerprint, and a protobuf format that round-trips a source
//! value through an intermediate protocol-buffer message.

pub mod fingerprinting;
pub mod formats;
pub mod traits;

pub use traits::Deserializer;
pub use traits::Schema;
pub use traits::SerdeVia;
pub use traits::SerdeViaBase;
pub use traits::SerializationFormat;
pub use traits::Serializer;

pub use formats::key_fingerprint::KeyFingerprint;
pub use formats::protobuf::Protobuf;
pub use formats::protobuf::ProtobufCodingFailure;
