//! The key-fingerprint format: serializing a value means computing its
//! hex-encoded content fingerprint. The format is one-directional — a
//! fingerprint does not uniquely invert to its source, so the binding
//! implements [`Serializer`] only.

use core::marker::PhantomData;
use vstd::prelude::*;

use crate::fingerprinting::Fingerprintable;
use crate::fingerprinting::FingerprintableBytes;
use crate::fingerprinting::HexFingerprint;
use crate::fingerprinting::hex_encoded;
use crate::traits::SerdeViaBase;
use crate::traits::SerializationFormat;
use crate::traits::Serializer;

verus! {

/// The key-fingerprint wire format for one source type: reading takes a
/// string slice, writing produces a tagged hex fingerprint.
#[derive(Debug, Copy)]
pub struct KeyFingerprintFormat<Source>(PhantomData<Source>);

impl<Source> Clone for KeyFingerprintFormat<Source> {
    fn clone(&self) -> (r: Self)
        ensures
            r == *self,
    {
        KeyFingerprintFormat(PhantomData)
    }
}

impl<Source> SerializationFormat for KeyFingerprintFormat<Source> {
    type Read = str;

    type Written = HexFingerprint<Source>;
}

/// A binding that serializes a fingerprintable source value into its
/// hex-encoded content fingerprint.
#[derive(Debug, Copy, PartialEq, Eq, PartialOrd, Ord)]
pub struct KeyFingerprint<Source>(Source);

impl<Source: Clone> Clone for KeyFingerprint<Source> {
    fn clone(&self) -> Self {
        KeyFingerprint(self.0.clone())
    }
}

/// The canonical fingerprint bytes that a source value converts into, as
/// declared by the source type's own conversion.
pub open spec fn fingerprint_bytes_of<Source: Fingerprintable>(source: Source) -> Seq<u8> {
    <Source as vstd::std_specs::convert::IntoSpec<FingerprintableBytes<Source>>>::into_spec(source)@
}

/// True when the source type's conversion into its fingerprint bytes obeys
/// its declared conversion specification, which pins the serialized output
/// down to a function of the source value.
pub open spec fn fingerprint_conversion_obeys_spec<Source: Fingerprintable>() -> bool {
    <Source as vstd::std_specs::convert::IntoSpec<FingerprintableBytes<Source>>>::obeys_into_spec()
}

impl<Source> KeyFingerprint<Source> {
    /// The wrapped source value.
    pub closed spec fn source_spec(self) -> Source {
        self.0
    }

    /// Wraps a source value for fingerprinting.
    pub fn new(source: Source) -> (r: Self)
        ensures
            r.source_spec() == source,
    {
        KeyFingerprint(source)
    }
}

impl<Source: Fingerprintable> SerdeViaBase for KeyFingerprint<Source> {
    type Fmt = KeyFingerprintFormat<Source>;

    type Medium = FingerprintableBytes<Source>;
}

impl<Source: Fingerprintable> Serializer for KeyFingerprint<Source> {
    /// Converts the wrapped source into its canonical bytes, then into their
    /// hex form. Total: no failure path.
    fn serialize(self) -> (r: HexFingerprint<Source>)
        ensures
            fingerprint_conversion_obeys_spec::<Source>() ==> r@ == hex_encoded(
                fingerprint_bytes_of(self.source_spec()),
            ),
    {
        let bytes: FingerprintableBytes<Source> = self.0.into();
        bytes.into_hex_string()
    }
}

/// Law: fingerprint serialization is deterministic. When the source type's
/// conversion obeys its declared specification, the contract of
/// [`Serializer::serialize`] on [`KeyFingerprint`] pins the output to a
/// function of the source value, so any two serializations of the same source
/// agree.
pub proof fn lemma_fingerprint_deterministic<Source: Fingerprintable>(
    source: Source,
    first: Seq<char>,
    second: Seq<char>,
)
    requires
        first == hex_encoded(fingerprint_bytes_of(source)),
        second == hex_encoded(fingerprint_bytes_of(source)),
    ensures
        first == second,
{
}

} // verus!
