//! The protobuf format: serializing a source value means converting it into
//! an intermediate protocol-buffer message and encoding that message to wire
//! bytes; deserializing decodes the bytes into the message and converts it
//! back into the source value, surfacing a structured error taxonomy.

use core::marker::PhantomData;
use vstd::prelude::*;

use crate::traits::Deserializer;
use crate::traits::Schema;
use crate::traits::SerdeVia;
use crate::traits::SerdeViaBase;
use crate::traits::SerializationFormat;
use crate::traits::Serializer;

verus! {

#[verifier::external_type_specification]
#[verifier::external_body]
pub struct ExDecodeError(prost::DecodeError);

#[verifier::external_type_specification]
#[verifier::external_body]
pub struct ExEncodeError(prost::EncodeError);

/// The protobuf wire format: reading takes a byte slice, writing produces an
/// owned byte buffer.
#[derive(Debug, Copy, Clone)]
pub struct ProtobufFormat;

impl SerializationFormat for ProtobufFormat {
    type Read = [u8];

    type Written = Box<[u8]>;
}

/// A binding that serializes a source value into protobuf wire bytes through
/// an intermediate message type `Proto`, and deserializes wire bytes back
/// into the source value.
#[derive(Debug, Copy)]
pub struct Protobuf<Source, Proto>(pub Source, PhantomData<Proto>);

impl<Source: Clone, Proto> Clone for Protobuf<Source, Proto> {
    fn clone(&self) -> Self {
        Protobuf(self.0.clone(), PhantomData)
    }
}

impl<Source, Proto> Protobuf<Source, Proto> {
    /// The wrapped source value.
    pub closed spec fn source_spec(self) -> Source {
        self.0
    }

    /// Wraps a source value for protobuf coding.
    pub fn new(source: Source) -> (r: Self)
        ensures
            r.source_spec() == source,
    {
        Protobuf(source, PhantomData)
    }
}

impl<Proto: Schema> SerdeViaBase for Protobuf<Proto::Source, Proto> {
    type Fmt = ProtobufFormat;

    type Medium = Proto;
}

/// The codec capability an intermediate message type supplies, normally by
/// delegating to its own prost::Message implementation: encoding a fully
/// constructed message to wire bytes is total, and decoding rejects
/// truncated or otherwise malformed bytes with the codec's error. Each
/// implementor declares what its codec produces as two spec functions, and
/// the executable operations are held to them.
pub trait ProtoMessage: Sized {
    /// The wire bytes this message encodes to.
    spec fn encoded_spec(&self) -> Seq<u8>;

    /// The message, or the decode error, that the codec yields for the given
    /// wire bytes.
    spec fn decode_spec(data: Seq<u8>) -> Result<Self, prost::DecodeError>;

    /// Encodes the message to its protobuf wire bytes.
    fn encode_message(&self) -> (r: Box<[u8]>)
        ensures
            r@ == self.encoded_spec(),
    ;

    /// Decodes protobuf wire bytes into a message, or reports why the bytes
    /// do not form one.
    fn decode_message(data: &[u8]) -> (r: Result<Self, prost::DecodeError>)
        ensures
            r == Self::decode_spec(data@),
    ;
}

/// The intermediate message a source value converts into, as declared by the
/// message type's own conversion from the source.
pub open spec fn message_of<Source, Proto: From<Source>>(source: Source) -> Proto {
    <Source as vstd::std_specs::convert::IntoSpec<Proto>>::into_spec(source)
}

/// True when the source-to-message conversion obeys its declared
/// specification, which pins the serialized bytes down to a function of the
/// source value.
pub open spec fn message_conversion_obeys_spec<Source, Proto: From<Source>>() -> bool {
    <Source as vstd::std_specs::convert::IntoSpec<Proto>>::obeys_into_spec()
}

/// The source value, or the conversion's own error, that a decoded message
/// converts back into.
pub open spec fn source_result_of<Source, Proto: TryInto<Source>>(message: Proto) -> Result<
    Source,
    <Proto as TryInto<Source>>::Error,
> {
    <Proto as vstd::std_specs::convert::TryIntoSpec<Source>>::try_into_spec(message)
}

/// True when the message-to-source conversion obeys its declared
/// specification.
pub open spec fn source_conversion_obeys_spec<Source, Proto: TryInto<Source>>() -> bool {
    <Proto as vstd::std_specs::convert::TryIntoSpec<Source>>::obeys_try_into_spec()
}

/// The binding's error that wraps a codec decode error.
pub open spec fn wrapped_decode_error<E: From<prost::DecodeError>>(e: prost::DecodeError) -> E {
    <E as vstd::std_specs::convert::FromSpec<prost::DecodeError>>::from_spec(e)
}

/// True when the decode-error conversion into the binding's error type obeys
/// its declared specification.
pub open spec fn error_conversion_obeys_spec<E: From<prost::DecodeError>>() -> bool {
    <E as vstd::std_specs::convert::FromSpec<prost::DecodeError>>::obeys_from_spec()
}

impl<Proto> Serializer for Protobuf<Proto::Source, Proto> where
    Proto: Schema + ProtoMessage + From<Proto::Source>,
 {
    /// Converts the wrapped source into its message form, exactly once, and
    /// encodes that message. Total: no failure path. When the conversion
    /// obeys its declared specification, the output is exactly the codec's
    /// encoding of the converted message.
    fn serialize(self) -> (r: Box<[u8]>)
        ensures
            message_conversion_obeys_spec::<Proto::Source, Proto>() ==> r@ == message_of::<
                Proto::Source,
                Proto,
            >(self.source_spec()).encoded_spec(),
    {
        let message: Proto = self.0.into();
        message.encode_message()
    }
}

impl<Proto, E> Deserializer for Protobuf<Proto::Source, Proto> where
    E: From<prost::DecodeError>,
    Proto: Schema + ProtoMessage + TryInto<Proto::Source, Error = E>,
 {
    type Error = E;

    /// Makes one decode attempt on the wire bytes. A codec decode failure
    /// (truncated or corrupt bytes) is returned as that error, converted into
    /// `E` and otherwise unchanged, never as a source value. A decoded
    /// message is handed to its own fallible conversion, whose result —
    /// the source value, or the conversion's error for a message that maps
    /// to no valid source — is returned as it stands.
    fn deserialize(data: &[u8]) -> (r: Result<Proto::Source, E>)
        ensures
            Proto::decode_spec(data@) is Err ==> r is Err,
            Proto::decode_spec(data@) is Err && error_conversion_obeys_spec::<E>() ==> r is Err
                && r->Err_0 == wrapped_decode_error::<E>(Proto::decode_spec(data@)->Err_0),
            Proto::decode_spec(data@) is Ok && source_conversion_obeys_spec::<
                Proto::Source,
                Proto,
            >() ==> r == source_result_of::<Proto::Source, Proto>(Proto::decode_spec(data@)->Ok_0),
    {
        match Proto::decode_message(data) {
            Ok(message) => message.try_into(),
            Err(e) => Err(E::from(e)),
        }
    }
}

impl<Proto, E> SerdeVia for Protobuf<Proto::Source, Proto> where
    E: From<prost::DecodeError>,
    Proto: Schema + ProtoMessage + From<Proto::Source> + TryInto<Proto::Source, Error = E>,
 {
}

/// Law: protobuf round trip. When the two conversions obey their declared
/// specifications and round-trip the source value, and the codec decodes the
/// converted message's encoding back to that message, then the contracts of
/// [`Serializer::serialize`] and [`Deserializer::deserialize`] on
/// [`Protobuf`] force deserializing a serialization to reproduce the source
/// exactly. The codec hypothesis is stated, not assumed: whether a codec
/// decodes its own encodings is the codec's own affair, and this library
/// claims nothing of it.
pub proof fn lemma_protobuf_round_trip<Proto, E>(
    source: Proto::Source,
    encoded: Seq<u8>,
    decoded: Result<Proto::Source, E>,
) where
    E: From<prost::DecodeError>,
    Proto: Schema + ProtoMessage + From<Proto::Source> + TryInto<Proto::Source, Error = E>,

    requires
        message_conversion_obeys_spec::<Proto::Source, Proto>(),
        source_conversion_obeys_spec::<Proto::Source, Proto>(),
        encoded == message_of::<Proto::Source, Proto>(source).encoded_spec(),
        Proto::decode_spec(encoded) is Ok,
        Proto::decode_spec(encoded)->Ok_0 == message_of::<Proto::Source, Proto>(source),
        source_result_of::<Proto::Source, Proto>(message_of::<Proto::Source, Proto>(source))
            is Ok,
        source_result_of::<Proto::Source, Proto>(message_of::<Proto::Source, Proto>(source))->Ok_0
            == source,
        decoded == source_result_of::<Proto::Source, Proto>(Proto::decode_spec(encoded)->Ok_0),
    ensures
        decoded is Ok,
        decoded->Ok_0 == source,
{
}

/// Why a protobuf-backed value could not be encoded or decoded.
#[derive(Debug)]
pub enum ProtobufCodingFailure {
    /// A field expected to be present in the decoded message was absent: the
    /// message is structurally valid but semantically incomplete. Carries the
    /// field's name and the type being coded.
    OptionalFieldAbsent(&'static str, String),
    /// The decoded message's fields form a combination that maps to no valid
    /// source value. Carries a description of the state and the type.
    FieldCompositionWasIncorrect(String, String),
    /// A byte field could not be coerced to the fixed length the source
    /// representation requires. Carries the expected length and the type.
    SliceLength(usize, String),
    /// An embedded string-keyed map failed to decode into its expected value
    /// type. Carries a description and the type.
    MapStringCodingFailed(String, String),
    /// The codec reported an encode failure (wrapped, not synthesized).
    Encode(prost::EncodeError),
    /// The codec reported a decode failure, e.g. truncated or corrupt bytes
    /// (wrapped, not synthesized).
    Decode(prost::DecodeError),
}

impl From<prost::DecodeError> for ProtobufCodingFailure {
    fn from(value: prost::DecodeError) -> (r: Self)
        ensures
            r == ProtobufCodingFailure::Decode(value),
    {
        ProtobufCodingFailure::Decode(value)
    }
}

impl vstd::std_specs::convert::FromSpecImpl<prost::DecodeError> for ProtobufCodingFailure {
    open spec fn obeys_from_spec() -> bool {
        true
    }

    open spec fn from_spec(v: prost::DecodeError) -> Self {
        ProtobufCodingFailure::Decode(v)
    }
}

impl From<prost::EncodeError> for ProtobufCodingFailure {
    fn from(value: prost::EncodeError) -> (r: Self)
        ensures
            r == ProtobufCodingFailure::Encode(value),
    {
        ProtobufCodingFailure::Encode(value)
    }
}

impl vstd::std_specs::convert::FromSpecImpl<prost::EncodeError> for ProtobufCodingFailure {
    open spec fn obeys_from_spec() -> bool {
        true
    }

    open spec fn from_spec(v: prost::EncodeError) -> Self {
        ProtobufCodingFailure::Encode(v)
    }
}

} // verus!
