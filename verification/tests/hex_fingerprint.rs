use serde_via::fingerprinting::Fingerprintable;
use serde_via::fingerprinting::FingerprintableBytes;
use serde_via::fingerprinting::HexDecodeError;
use serde_via::fingerprinting::HexFingerprint;
use serde_via::KeyFingerprint;
use serde_via::Serializer;

/// A sample source type whose canonical fingerprint bytes are its key
/// material as-is.
#[derive(Debug, Clone, PartialEq, Eq)]
struct IdentityKey {
    material: Vec<u8>,
}

impl From<IdentityKey> for FingerprintableBytes<IdentityKey> {
    fn from(value: IdentityKey) -> Self {
        FingerprintableBytes::new(value.material.into_boxed_slice())
    }
}

impl Fingerprintable for IdentityKey {}

/// A second, distinct source type used to show that tags keep fingerprints
/// of different sources apart.
#[derive(Debug, Clone, PartialEq, Eq)]
struct SessionKey {
    material: Vec<u8>,
}

impl From<SessionKey> for FingerprintableBytes<SessionKey> {
    fn from(value: SessionKey) -> Self {
        FingerprintableBytes::new(value.material.into_boxed_slice())
    }
}

impl Fingerprintable for SessionKey {}

#[test]
fn hex_encoding_exact_value() {
    let bytes = FingerprintableBytes::<IdentityKey>::new(vec![1u8, 2, 3, 15, 16].into_boxed_slice());
    let hex = bytes.into_hex_string();
    assert_eq!(hex.as_str(), "0102030f10");
}

#[test]
fn hex_encoding_empty_buffer() {
    let bytes = FingerprintableBytes::<IdentityKey>::new(Vec::new().into_boxed_slice());
    let hex = bytes.into_hex_string();
    assert_eq!(hex.as_str(), "");
}

#[test]
fn hex_round_trip_reproduces_bytes() {
    let payload: Vec<u8> = vec![0u8, 171, 255, 16, 32];
    let original = FingerprintableBytes::<IdentityKey>::new(payload.into_boxed_slice());
    let hex = original.clone().into_hex_string();
    assert_eq!(hex.as_str(), "00abff1020");
    let back = FingerprintableBytes::<IdentityKey>::from_hex_string(hex.as_str()).unwrap();
    assert_eq!(back, original);
}

#[test]
fn hex_decoding_accepts_upper_case() {
    let decoded = FingerprintableBytes::<IdentityKey>::from_hex_string("0AFF").unwrap();
    let same = FingerprintableBytes::<IdentityKey>::new(vec![10u8, 255].into_boxed_slice());
    assert_eq!(decoded, same);
}

#[test]
fn hex_decoding_rejects_odd_length() {
    let err = FingerprintableBytes::<IdentityKey>::from_hex_string("abc").unwrap_err();
    assert_eq!(err, HexDecodeError::OddLength);
}

#[test]
fn hex_decoding_rejects_non_hex_character() {
    let err = FingerprintableBytes::<IdentityKey>::from_hex_string("0g").unwrap_err();
    assert_eq!(
        err,
        HexDecodeError::InvalidHexCharacter { c: 'g', index: 1 }
    );
    let err = FingerprintableBytes::<IdentityKey>::from_hex_string("ab cd").unwrap_err();
    assert_eq!(err, HexDecodeError::OddLength);
    let err = FingerprintableBytes::<IdentityKey>::from_hex_string("abcd 0").unwrap_err();
    assert_eq!(
        err,
        HexDecodeError::InvalidHexCharacter { c: ' ', index: 4 }
    );
}

#[test]
fn fingerprint_serialization_is_deterministic() {
    let key = IdentityKey { material: vec![7u8, 8, 9, 200] };
    let first = KeyFingerprint::new(key.clone()).serialize();
    let second = KeyFingerprint::new(key).serialize();
    assert_eq!(first, second);
    assert_eq!(String::from(first), "070809c8");
}

#[test]
fn fingerprints_of_distinct_sources_carry_distinct_tags() {
    let identity = KeyFingerprint::new(IdentityKey { material: vec![1u8, 2] }).serialize();
    let session = KeyFingerprint::new(SessionKey { material: vec![1u8, 2] }).serialize();
    // The two values agree byte for byte, yet their types differ: one is a
    // HexFingerprint<IdentityKey>, the other a HexFingerprint<SessionKey>,
    // and the compiler refuses to substitute one for the other.
    assert_eq!(String::from(identity), String::from(session));
}

#[test]
fn hex_fingerprint_string_conversions_round_trip() {
    let hex: HexFingerprint<IdentityKey> = HexFingerprint::from(String::from("00ff"));
    assert_eq!(hex.as_str(), "00ff");
    let raw: String = hex.into();
    assert_eq!(raw, "00ff");
}
