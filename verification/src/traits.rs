//! The type-level contracts that tie a schema, a wire format and a binding
//! together. All dispatch is resolved statically: calling code picks a
//! concrete binding type and gets serialize/deserialize operations typed to
//! exactly that format/schema pairing.

use vstd::prelude::*;

verus! {

/// Declares that a type identifies a logical source value type.
pub trait Schema {
    type Source;
}

/// Declares a wire format: the view type its deserializer reads and the owned
/// type its serializer produces.
pub trait SerializationFormat {
    type Read: ?Sized;

    type Written;
}

/// Ties one wire format to one schema.
pub trait SerdeViaBase {
    type Fmt: SerializationFormat;

    type Medium: Schema;
}

/// The capability to serialize: consumes the binding (which owns the wrapped
/// source value) and produces the format's written type.
pub trait Serializer: SerdeViaBase {
    fn serialize(self) -> <Self::Fmt as SerializationFormat>::Written;
}

/// The capability to deserialize: borrows the format's read view and produces
/// either the reconstructed source value or a format-specific error.
pub trait Deserializer: SerdeViaBase {
    type Error;

    fn deserialize(
        data: &<Self::Fmt as SerializationFormat>::Read,
    ) -> Result<<Self::Medium as Schema>::Source, Self::Error>;
}

/// A binding that supports both directions. A serialize-only binding (such as
/// the key-fingerprint format) implements [`Serializer`] without claiming
/// this.
pub trait SerdeVia: Serializer + Deserializer {
}

} // verus!
