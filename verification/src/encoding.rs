//! The canonical encoder: each variant is handed to `der`, and what comes
//! back is passed on unchanged.

use vstd::prelude::*;
use der::Encode;
use std::time::Duration;
use crate::error::ErrorKind;
use crate::value::{FlatValue, NANOS_PER_SEC};

verus! {

/// `der::Error`: why `der` could not encode. It is carried through unread.
#[verifier::external_type_specification]
#[verifier::external_body]
pub struct ExDerError(der::Error);

/// The last second that `der` encodes as a time: 9999-12-31T23:59:59Z.
pub const MAX_ENCODABLE_SECS: u64 = 253_402_300_799;

/// The number of bytes in the encoding of a time.
pub const TIME_ENCODING_LEN: usize = 17;

/// The DER encoding of `NULL`: its tag and a zero length.
pub open spec fn null_bytes() -> Seq<u8> {
    seq![0x05u8, 0x00u8]
}

/// The DER encoding of a `BOOLEAN`: tag, length one, and a byte of all ones
/// for true or all zeros for false.
pub open spec fn boolean_bytes(b: bool) -> Seq<u8> {
    seq![0x01u8, 0x01u8, if b { 0xffu8 } else { 0x00u8 }]
}

/// The contents of a DER `INTEGER`: `i` in two's complement, most
/// significant byte first, in the fewest bytes that hold it.
pub open spec fn integer_content(i: int) -> Seq<u8>
    decreases (if i < 0 { -i } else { i }),
{
    if -128 <= i < 128 {
        seq![(i % 256) as u8]
    } else {
        integer_content(i / 256).push((i % 256) as u8)
    }
}

/// The DER encoding of an `INTEGER`: tag, the length of the contents, and
/// the contents.
pub open spec fn integer_bytes(i: i64) -> Seq<u8> {
    seq![0x02u8, integer_content(i as int).len() as u8] + integer_content(i as int)
}

/// The bytes that `der` gives for the `GeneralizedTime` of the instant
/// `secs` seconds and `nanos` nanoseconds after the epoch.
pub uninterp spec fn der_time_bytes(secs: u64, nanos: u32) -> Seq<u8>;

/// Whether the time `secs` seconds and `nanos` nanoseconds from the epoch
/// has an encoding: it lies neither before the epoch nor after the last
/// second that `der` encodes, were it by one nanosecond.
pub open spec fn encodable_offset(secs: int, nanos: int) -> bool {
    0 <= secs < MAX_ENCODABLE_SECS || (secs == MAX_ENCODABLE_SECS && nanos == 0)
}

/// `der`'s `Encode::to_der` on `der::asn1::Null`. The value is empty, so the
/// encoding is the header alone, and nothing in it can fail.
#[verifier::external_body]
fn der_null() -> (r: Result<Vec<u8>, der::Error>)
    ensures
        r is Ok,
        r matches Ok(v) ==> v@ == null_bytes(),
{
    der::asn1::Null.to_der()
}

/// `der`'s `Encode::to_der` on a `bool`: a header of two bytes and the one
/// value byte that `der` writes for true or for false. Nothing in it can fail.
#[verifier::external_body]
fn der_boolean(b: bool) -> (r: Result<Vec<u8>, der::Error>)
    ensures
        r is Ok,
        r matches Ok(v) ==> v@ == boolean_bytes(b),
{
    b.to_der()
}

/// `der`'s `Encode::to_der` on an `i64`: a header of two bytes and the
/// big-endian bytes of `i`, from which `der` strips every leading byte that
/// the sign does not need. At most eight bytes follow the header, and
/// nothing in it can fail.
#[verifier::external_body]
fn der_integer(i: i64) -> (r: Result<Vec<u8>, der::Error>)
    ensures
        r is Ok,
        r matches Ok(v) ==> v@ == integer_bytes(i),
{
    i.to_der()
}

/// `der`'s `GeneralizedTime::from_unix_duration` on the duration of `secs`
/// seconds and `nanos` nanoseconds, and `Encode::to_der` on what it gives.
/// `der` makes a time of every duration up to `MAX_ENCODABLE_SECS` whole
/// seconds and of no longer one, and encodes each time it made as a header
/// of two bytes, fourteen digits and the letter `Z`.
#[verifier::external_body]
fn der_time(secs: u64, nanos: u32) -> (r: Result<Vec<u8>, der::Error>)
    requires
        nanos < NANOS_PER_SEC,
    ensures
        r is Ok <==> encodable_offset(secs as int, nanos as int),
        r matches Ok(v) ==> v@ == der_time_bytes(secs, nanos),
        r matches Ok(v) ==> v@.len() == TIME_ENCODING_LEN,
{
    der::asn1::GeneralizedTime::from_unix_duration(Duration::new(secs, nanos))?.to_der()
}

/// What `to_der_bytes` may answer on `value`, given what the encoder of
/// reals answers on a bit pattern.
pub open spec fn is_encoding_of<E: Fn(u64) -> Option<Vec<u8>>>(
    value: FlatValue,
    encode_real: &E,
    r: Result<Vec<u8>, ErrorKind>,
) -> bool {
    match value {
        FlatValue::Unspecified => r matches Ok(v) && v@ == null_bytes(),
        FlatValue::Boolean(b) => r matches Ok(v) && v@ == boolean_bytes(b),
        FlatValue::Integer(i) => r matches Ok(v) && v@ == integer_bytes(i),
        FlatValue::Real(bits) => match r {
            Ok(v) => encode_real.ensures((bits,), Some(v)),
            Err(e) => e == ErrorKind::EncodingError && encode_real.ensures((bits,), None),
        },
        FlatValue::GeneralizedTime(t) => if encodable_offset(t.secs(), t.nanos()) {
            &&& r matches Ok(v)
            &&& v@ == der_time_bytes(t.secs() as u64, t.nanos() as u32)
            &&& v@.len() == TIME_ENCODING_LEN
        } else {
            r == Err::<Vec<u8>, ErrorKind>(ErrorKind::EncodingError)
        },
    }
}

/// Turns the encoder's answer into the library's: the bytes as they are, or
/// `EncodingError` for any failure of the encoder.
pub fn encoded(outcome: Result<Vec<u8>, der::Error>) -> (r: Result<Vec<u8>, ErrorKind>)
    ensures
        outcome matches Ok(v) ==> r == Ok::<Vec<u8>, ErrorKind>(v),
        outcome is Err ==> r == Err::<Vec<u8>, ErrorKind>(ErrorKind::EncodingError),
{
    match outcome {
        Ok(v) => Ok(v),
        Err(_) => Err(ErrorKind::EncodingError),
    }
}

impl FlatValue {
    /// The canonical DER encoding of the value. `Unspecified` encodes as
    /// `NULL`; a boolean, an integer and a time are encoded by `der`. A real
    /// is encoded by `encode_real`, which is handed the bit pattern and
    /// answers `None` when it cannot serialize it. A time has an encoding
    /// exactly when it is an `encodable_offset` from the epoch. Every failure
    /// is reported as `EncodingError`.
    pub fn to_der_bytes<E: Fn(u64) -> Option<Vec<u8>>>(&self, encode_real: &E) -> (r: Result<Vec<u8>, ErrorKind>)
        requires
            forall|bits: u64| encode_real.requires((bits,)),
        ensures
            is_encoding_of(*self, encode_real, r),
    {
        match self {
            FlatValue::Unspecified => encoded(der_null()),
            FlatValue::Boolean(b) => encoded(der_boolean(*b)),
            FlatValue::Integer(i) => encoded(der_integer(*i)),
            FlatValue::Real(bits) => match encode_real(*bits) {
                Some(v) => Ok(v),
                None => Err(ErrorKind::EncodingError),
            },
            FlatValue::GeneralizedTime(t) => {
                let secs: i64 = t.seconds();
                if secs < 0 {
                    Err(ErrorKind::EncodingError)
                } else {
                    encoded(der_time(secs as u64, t.subsec_nanos()))
                }
            },
        }
    }
}

} // verus!
