//! Content fingerprints: an owned byte buffer tagged at compile time with the
//! source type it fingerprints, convertible to and from a hex string carrying
//! the same tag. The tag is a phantom type parameter with no runtime
//! representation, so two fingerprints of different source types are never
//! interchangeable even when byte-identical.

use core::marker::PhantomData;
use vstd::prelude::*;

use crate::traits::Schema;

verus! {

/// True of the characters the hex codec accepts as digits.
pub open spec fn is_hex_digit(c: char) -> bool {
    ('0' <= c && c <= '9') || ('a' <= c && c <= 'f') || ('A' <= c && c <= 'F')
}

/// The numeric value of one hex digit (meaningful when `is_hex_digit` holds).
pub open spec fn hex_digit_value(c: char) -> int {
    if '0' <= c && c <= '9' {
        c as int - '0' as int
    } else if 'a' <= c && c <= 'f' {
        c as int - 'a' as int + 10
    } else {
        c as int - 'A' as int + 10
    }
}

/// The lower-case hex digit for a nibble value (meaningful for 0 up to 15).
pub open spec fn hex_digit_of(n: int) -> char {
    if n < 10 {
        ('0' as int + n) as char
    } else {
        ('a' as int + n - 10) as char
    }
}

/// A character sequence that decodes as hex: even length, digits throughout.
pub open spec fn is_hex_seq(s: Seq<char>) -> bool {
    &&& s.len() % 2 == 0
    &&& forall|i: int| 0 <= i < s.len() ==> is_hex_digit(#[trigger] s[i])
}

/// Lower-case hex encoding of a byte sequence: two digits per byte, in order.
pub open spec fn hex_encoded(bytes: Seq<u8>) -> Seq<char>
    decreases bytes.len(),
{
    if bytes.len() == 0 {
        Seq::empty()
    } else {
        seq![hex_digit_of(bytes[0] as int / 16), hex_digit_of(bytes[0] as int % 16)]
            + hex_encoded(bytes.drop_first())
    }
}

/// The bytes a hex digit sequence denotes: one byte per digit pair, in order
/// (meaningful when `is_hex_seq` holds).
pub open spec fn hex_decoded(s: Seq<char>) -> Seq<u8>
    decreases s.len(),
{
    if s.len() < 2 {
        Seq::empty()
    } else {
        seq![(hex_digit_value(s[0]) * 16 + hex_digit_value(s[1])) as u8] + hex_decoded(s.skip(2))
    }
}

/// The position of the first character that is not a hex digit (meaningful
/// when one exists).
pub open spec fn first_non_hex_index(s: Seq<char>) -> int
    decreases s.len(),
{
    if s.len() == 0 {
        0
    } else if !is_hex_digit(s[0]) {
        0
    } else {
        1 + first_non_hex_index(s.drop_first())
    }
}

/// Why a hex string could not be decoded into bytes.
#[derive(Debug, Clone, Copy, PartialEq, Eq)]
pub enum HexDecodeError {
    /// A character that is not a hex digit stood at the given offset.
    InvalidHexCharacter { c: char, index: usize },
    /// The string held an odd number of digits.
    OddLength,
    /// The string's length did not match a fixed-length target.
    InvalidStringLength,
}

/// An owned immutable byte buffer, tagged at compile time with the logical
/// source type that produced it.
#[derive(Debug, Hash, PartialEq, Eq, PartialOrd, Ord)]
pub struct FingerprintableBytes<Source>(Vec<u8>, PhantomData<Source>);

/// An owned hex string, tagged at compile time the same way, representing the
/// hex-encoded form of a [`FingerprintableBytes`].
#[derive(Debug, Hash, PartialEq, Eq, PartialOrd, Ord)]
pub struct HexFingerprint<Source>(String, PhantomData<Source>);

impl<Source> View for FingerprintableBytes<Source> {
    type V = Seq<u8>;

    closed spec fn view(&self) -> Seq<u8> {
        self.0@
    }
}

impl<Source> Clone for FingerprintableBytes<Source> {
    fn clone(&self) -> (r: Self)
        ensures
            r@ == self@,
    {
        FingerprintableBytes(self.0.clone(), PhantomData)
    }
}

impl<Source> Clone for HexFingerprint<Source> {
    fn clone(&self) -> (r: Self)
        ensures
            r@ == self@,
    {
        HexFingerprint(self.0.clone(), PhantomData)
    }
}

impl<Source> View for HexFingerprint<Source> {
    type V = Seq<char>;

    closed spec fn view(&self) -> Seq<char> {
        self.0@
    }
}

impl<Source> From<String> for HexFingerprint<Source> {
    fn from(value: String) -> (r: Self)
        ensures
            r@ == value@,
    {
        HexFingerprint(value, PhantomData)
    }
}

impl<Source> vstd::std_specs::convert::FromSpecImpl<String> for HexFingerprint<Source> {
    open spec fn obeys_from_spec() -> bool {
        true
    }

    closed spec fn from_spec(v: String) -> Self {
        HexFingerprint(v, PhantomData)
    }
}

impl<Source> From<HexFingerprint<Source>> for String {
    fn from(value: HexFingerprint<Source>) -> (r: Self)
        ensures
            r@ == value@,
    {
        value.0
    }
}

impl<Source> vstd::std_specs::convert::FromSpecImpl<HexFingerprint<Source>> for String {
    open spec fn obeys_from_spec() -> bool {
        true
    }

    closed spec fn from_spec(v: HexFingerprint<Source>) -> Self {
        v.0
    }
}

impl<Source> HexFingerprint<Source> {
    /// The hex digits as a borrowed string slice.
    pub fn as_str(&self) -> (r: &str)
        ensures
            r@ == self@,
    {
        self.0.as_str()
    }
}

/// Relies on hex::encode: it writes two lower-case hex digits per input byte,
/// in input order.
#[verifier::external_body]
fn hex_encode(bytes: &Vec<u8>) -> (r: String)
    ensures
        r@ == hex_encoded(bytes@),
{
    hex::encode(bytes)
}

/// Relies on hex::decode: it accepts exactly the even-length strings of hex
/// digits (either case), rejects an odd byte length before inspecting digits,
/// and otherwise reports the first non-digit byte and its offset.
#[verifier::external_body]
fn hex_decode(s: &str) -> (r: Result<Vec<u8>, HexDecodeError>)
    ensures
        r is Ok <==> is_hex_seq(s@),
        r is Ok ==> r->Ok_0@ == hex_decoded(s@),
        vstd::string::is_ascii(s) && s@.len() % 2 != 0 ==> r is Err && r->Err_0
            == HexDecodeError::OddLength,
        vstd::string::is_ascii(s) && s@.len() % 2 == 0 && !is_hex_seq(s@) ==> r is Err
            && r->Err_0 == (HexDecodeError::InvalidHexCharacter {
            c: s@[first_non_hex_index(s@)],
            index: first_non_hex_index(s@) as usize,
        }),
{
    match hex::decode(s) {
        Ok(decoded) => Ok(decoded),
        Err(hex::FromHexError::InvalidHexCharacter { c, index }) => Err(
            HexDecodeError::InvalidHexCharacter { c, index },
        ),
        Err(hex::FromHexError::OddLength) => Err(HexDecodeError::OddLength),
        Err(hex::FromHexError::InvalidStringLength) => Err(HexDecodeError::InvalidStringLength),
    }
}

impl<Source> FingerprintableBytes<Source> {
    /// Wraps an owned byte buffer; any byte sequence is a valid fingerprint
    /// payload.
    pub fn new(bytes: Box<[u8]>) -> (r: Self)
        ensures
            r@ == bytes@,
    {
        FingerprintableBytes(bytes.into_vec(), PhantomData)
    }

    /// Decodes a hex string into a tagged byte buffer. Succeeds exactly on
    /// even-length strings of hex digits; any other input is rejected with the
    /// reason.
    pub fn from_hex_string(hex_string: &str) -> (r: Result<Self, HexDecodeError>)
        ensures
            r is Ok <==> is_hex_seq(hex_string@),
            r is Ok ==> r->Ok_0@ == hex_decoded(hex_string@),
            vstd::string::is_ascii(hex_string) && hex_string@.len() % 2 != 0 ==> r is Err
                && r->Err_0 == HexDecodeError::OddLength,
            vstd::string::is_ascii(hex_string) && hex_string@.len() % 2 == 0 && !is_hex_seq(
                hex_string@,
            ) ==> r is Err && r->Err_0 == (HexDecodeError::InvalidHexCharacter {
                c: hex_string@[first_non_hex_index(hex_string@)],
                index: first_non_hex_index(hex_string@) as usize,
            }),
    {
        match hex_decode(hex_string) {
            Ok(decoded) => Ok(FingerprintableBytes(decoded, PhantomData)),
            Err(e) => Err(e),
        }
    }

    /// Consumes the buffer and produces its hex form under the same tag. The
    /// conversion is total and lossless: decoding the result reproduces the
    /// original bytes exactly.
    pub fn into_hex_string(self) -> (r: HexFingerprint<Source>)
        ensures
            r@ == hex_encoded(self@),
    {
        HexFingerprint::from(hex_encode(&self.0))
    }
}

proof fn lemma_hex_digit_round_trip(n: int)
    requires
        0 <= n < 16,
    ensures
        is_hex_digit(hex_digit_of(n)),
        hex_digit_value(hex_digit_of(n)) == n,
{
}

/// Law: hex round trip. Encoding any byte buffer yields a decodable hex
/// string, and decoding that string reproduces the buffer exactly; so
/// `from_hex_string` applied to `into_hex_string`'s output gives back the
/// bytes `new` was given.
pub proof fn lemma_hex_round_trip(bytes: Seq<u8>)
    ensures
        is_hex_seq(hex_encoded(bytes)),
        hex_decoded(hex_encoded(bytes)) == bytes,
    decreases bytes.len(),
{
    if bytes.len() == 0 {
        assert(hex_decoded(hex_encoded(bytes)) =~= bytes);
    } else {
        let b = bytes[0];
        let hi = b as int / 16;
        let lo = b as int % 16;
        lemma_hex_digit_round_trip(hi);
        lemma_hex_digit_round_trip(lo);
        lemma_hex_round_trip(bytes.drop_first());
        let head = seq![hex_digit_of(hi), hex_digit_of(lo)];
        let tail = hex_encoded(bytes.drop_first());
        let enc = hex_encoded(bytes);
        assert(enc =~= head + tail);
        assert forall|i: int| 0 <= i < enc.len() implies is_hex_digit(#[trigger] enc[i]) by {
            if i >= 2 {
                assert(enc[i] == tail[i - 2]);
            }
        }
        assert(enc.skip(2) =~= tail);
        assert(hex_digit_value(enc[0]) * 16 + hex_digit_value(enc[1]) == b as int);
        assert(hex_decoded(enc) =~= bytes);
    }
}

impl<Source> Schema for FingerprintableBytes<Source> {
    type Source = Source;
}

/// A source type opts in to fingerprinting by declaring how it converts into
/// its own canonical byte buffer. Which bytes stand for a value (a hash, a
/// canonical field encoding) is a property of each source type, not of this
/// module.
pub trait Fingerprintable: Into<FingerprintableBytes<Self>> + Sized {
}

} // verus!
