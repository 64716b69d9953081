//! The boundary: entry points that take and return primitives only. Each
//! one asks the store once and turns any failure into the fixed sentinel of
//! its return type. The sentinels are decided here and nowhere else.

use vstd::prelude::*;
use crate::buffer::{copied_len, CAPACITY};
use crate::encoding::is_encoding_of;
use crate::error::ErrorKind;
use crate::store::{_encode, try_read, try_write, Store};
use crate::value::{representable, FlatValue};

verus! {

/// The status of a call that succeeded.
pub const STATUS_OK: i32 = 0;

/// The status of a call that failed, whatever the reason.
pub const STATUS_FAILED: i32 = -1;

pub open spec fn spec_bool2u8(b: bool) -> u8 {
    if b {
        0xff
    } else {
        0x00
    }
}

pub open spec fn spec_flag_or_zero(outcome: Result<bool, ErrorKind>) -> u8 {
    match outcome {
        Ok(b) => spec_bool2u8(b),
        Err(_) => 0x00,
    }
}

pub open spec fn spec_integer_or_zero(outcome: Result<i64, ErrorKind>) -> i64 {
    match outcome {
        Ok(i) => i,
        Err(_) => 0,
    }
}

pub open spec fn spec_payload_or_none<T>(outcome: Result<T, ErrorKind>) -> Option<T> {
    match outcome {
        Ok(payload) => Some(payload),
        Err(_) => None,
    }
}

pub open spec fn spec_status_of(outcome: Result<(), ErrorKind>) -> i32 {
    match outcome {
        Ok(_) => STATUS_OK,
        Err(_) => STATUS_FAILED,
    }
}

pub open spec fn spec_length_or_failure(outcome: Result<usize, ErrorKind>) -> i32 {
    match outcome {
        Ok(len) => len as i32,
        Err(_) => STATUS_FAILED,
    }
}

/// A boolean as one byte: all ones for true, zero for false.
#[verifier::when_used_as_spec(spec_bool2u8)]
pub fn bool2u8(b: bool) -> (r: u8)
    ensures
        r == spec_bool2u8(b),
{
    match b {
        true => 0xff,
        false => 0x00,
    }
}

/// The sentinel rule of the queries that answer a boolean: the flag of a
/// success, zero for any failure.
#[verifier::when_used_as_spec(spec_flag_or_zero)]
pub fn flag_or_zero(outcome: Result<bool, ErrorKind>) -> (r: u8)
    ensures
        r == spec_flag_or_zero(outcome),
{
    match outcome {
        Ok(b) => bool2u8(b),
        Err(_) => 0x00,
    }
}

/// The sentinel rule of the queries that answer an integer: zero for any
/// failure.
#[verifier::when_used_as_spec(spec_integer_or_zero)]
pub fn integer_or_zero(outcome: Result<i64, ErrorKind>) -> (r: i64)
    ensures
        r == spec_integer_or_zero(outcome),
{
    match outcome {
        Ok(i) => i,
        Err(_) => 0,
    }
}

/// The rule of the queries that answer a double: the payload of a success,
/// and nothing for any failure, which the caller shows as not-a-number.
#[verifier::when_used_as_spec(spec_payload_or_none)]
pub fn payload_or_none<T>(outcome: Result<T, ErrorKind>) -> (r: Option<T>)
    ensures
        r == spec_payload_or_none(outcome),
{
    match outcome {
        Ok(payload) => Some(payload),
        Err(_) => None,
    }
}

/// The sentinel rule of the setters: `STATUS_OK` for a success,
/// `STATUS_FAILED` for any failure.
#[verifier::when_used_as_spec(spec_status_of)]
pub fn status_of(outcome: Result<(), ErrorKind>) -> (r: i32)
    ensures
        r == spec_status_of(outcome),
{
    match outcome {
        Ok(_) => STATUS_OK,
        Err(_) => STATUS_FAILED,
    }
}

/// The sentinel rule of `encode`: the number of bytes copied, or
/// `STATUS_FAILED` for any failure. A length never exceeds the buffer.
#[verifier::when_used_as_spec(spec_length_or_failure)]
pub fn length_or_failure(outcome: Result<usize, ErrorKind>) -> (r: i32)
    requires
        outcome matches Ok(len) ==> len <= CAPACITY,
    ensures
        r == spec_length_or_failure(outcome),
        outcome matches Ok(len) ==> r == len,
{
    match outcome {
        Ok(len) => len as i32,
        Err(_) => STATUS_FAILED,
    }
}

/// Whether the boolean variant is active, as a flag; zero when the value
/// could not be read.
pub fn is_boolean(store: &Store) -> (r: u8)
    ensures
        r == flag_or_zero(Err(ErrorKind::LockContention)) || exists|v: FlatValue|
            r == flag_or_zero(Ok(#[trigger] v.is_boolean())),
{
    flag_or_zero(
        try_read(
            store,
            &|fval: &FlatValue| -> (o: Result<bool, ErrorKind>)
                ensures
                    o == Ok::<bool, ErrorKind>(fval.is_boolean())
                { Ok(fval.is_boolean()) },
        ),
    )
}

/// Whether the integer variant is active, as a flag; zero when the value
/// could not be read.
pub fn is_integer(store: &Store) -> (r: u8)
    ensures
        r == flag_or_zero(Err(ErrorKind::LockContention)) || exists|v: FlatValue|
            r == flag_or_zero(Ok(#[trigger] v.is_integer())),
{
    flag_or_zero(
        try_read(
            store,
            &|fval: &FlatValue| -> (o: Result<bool, ErrorKind>)
                ensures
                    o == Ok::<bool, ErrorKind>(fval.is_integer())
                { Ok(fval.is_integer()) },
        ),
    )
}

/// Whether the real variant is active, as a flag; zero when the value
/// could not be read.
pub fn is_real(store: &Store) -> (r: u8)
    ensures
        r == flag_or_zero(Err(ErrorKind::LockContention)) || exists|v: FlatValue|
            r == flag_or_zero(Ok(#[trigger] v.is_real())),
{
    flag_or_zero(
        try_read(
            store,
            &|fval: &FlatValue| -> (o: Result<bool, ErrorKind>)
                ensures
                    o == Ok::<bool, ErrorKind>(fval.is_real())
                { Ok(fval.is_real()) },
        ),
    )
}

/// Whether the timestamp variant is active, as a flag; zero when the value
/// could not be read.
pub fn is_time(store: &Store) -> (r: u8)
    ensures
        r == flag_or_zero(Err(ErrorKind::LockContention)) || exists|v: FlatValue|
            r == flag_or_zero(Ok(#[trigger] v.is_time())),
{
    flag_or_zero(
        try_read(
            store,
            &|fval: &FlatValue| -> (o: Result<bool, ErrorKind>)
                ensures
                    o == Ok::<bool, ErrorKind>(fval.is_time())
                { Ok(fval.is_time()) },
        ),
    )
}

/// The boolean payload as a flag; zero when the value could not be read or
/// is no boolean.
pub fn bool_value(store: &Store) -> (r: u8)
    ensures
        r == flag_or_zero(Err(ErrorKind::LockContention)) || exists|v: FlatValue|
            r == flag_or_zero(#[trigger] v.boolean_value()),
{
    flag_or_zero(
        try_read(
            store,
            &|fval: &FlatValue| -> (o: Result<bool, ErrorKind>)
                ensures
                    o == fval.boolean_value()
                { fval.boolean_value() },
        ),
    )
}

/// The integer payload; zero when the value could not be read or is no
/// integer.
pub fn integer_value(store: &Store) -> (r: i64)
    ensures
        r == integer_or_zero(Err(ErrorKind::LockContention)) || exists|v: FlatValue|
            r == integer_or_zero(#[trigger] v.integer_value()),
{
    integer_or_zero(
        try_read(
            store,
            &|fval: &FlatValue| -> (o: Result<i64, ErrorKind>)
                ensures
                    o == fval.integer_value()
                { fval.integer_value() },
        ),
    )
}

/// The bit pattern of the real payload; nothing when the value could not be
/// read or is no real.
pub fn real_value(store: &Store) -> (r: Option<u64>)
    ensures
        r is None || exists|v: FlatValue| r == payload_or_none(#[trigger] v.real_value()),
{
    payload_or_none(
        try_read(
            store,
            &|fval: &FlatValue| -> (o: Result<u64, ErrorKind>)
                ensures
                    o == fval.real_value()
                { fval.real_value() },
        ),
    )
}

/// The stored time as whole seconds and nanoseconds since the epoch; nothing
/// when the value could not be read, is no timestamp, or lies before the
/// epoch.
pub fn unixtime_seconds(store: &Store) -> (r: Option<(u64, u32)>)
    ensures
        r is None || exists|v: FlatValue| r == payload_or_none(#[trigger] v.unixtime_value()),
{
    payload_or_none(
        try_read(
            store,
            &|fval: &FlatValue| -> (o: Result<(u64, u32), ErrorKind>)
                ensures
                    o == fval.unixtime_value()
                { fval.unixtime_value() },
        ),
    )
}

/// Makes the value the boolean true. `STATUS_OK`, or `STATUS_FAILED` when
/// the value is locked.
pub fn bool_set_true(store: &Store) -> (r: i32)
    ensures
        r == STATUS_OK || r == STATUS_FAILED,
{
    status_of(
        try_write(
            store,
            &|fval: &mut FlatValue, val: bool| -> (o: Result<(), ErrorKind>)
                ensures
                    o is Ok,
                    *final(fval) == FlatValue::Boolean(val)
                {
                    fval.set_boolean(val);
                    Ok(())
                },
            true,
        ),
    )
}

/// Makes the value the boolean false. `STATUS_OK`, or `STATUS_FAILED` when
/// the value is locked.
pub fn bool_set_false(store: &Store) -> (r: i32)
    ensures
        r == STATUS_OK || r == STATUS_FAILED,
{
    status_of(
        try_write(
            store,
            &|fval: &mut FlatValue, val: bool| -> (o: Result<(), ErrorKind>)
                ensures
                    o is Ok,
                    *final(fval) == FlatValue::Boolean(val)
                {
                    fval.set_boolean(val);
                    Ok(())
                },
            false,
        ),
    )
}

/// Makes the value the integer `i`. `STATUS_OK`, or `STATUS_FAILED` when the
/// value is locked.
pub fn integer_set(store: &Store, i: i64) -> (r: i32)
    ensures
        r == STATUS_OK || r == STATUS_FAILED,
{
    status_of(
        try_write(
            store,
            &|fval: &mut FlatValue, val: i64| -> (o: Result<(), ErrorKind>)
                ensures
                    o is Ok,
                    *final(fval) == FlatValue::Integer(val)
                {
                    fval.set_integer(val);
                    Ok(())
                },
            i,
        ),
    )
}

/// Makes the value the real with bit pattern `bits`. `STATUS_OK`, or
/// `STATUS_FAILED` when the value is locked.
pub fn real_set(store: &Store, bits: u64) -> (r: i32)
    ensures
        r == STATUS_OK || r == STATUS_FAILED,
{
    status_of(
        try_write(
            store,
            &|fval: &mut FlatValue, val: u64| -> (o: Result<(), ErrorKind>)
                ensures
                    o is Ok,
                    *final(fval) == FlatValue::Real(val)
                {
                    fval.set_real(val);
                    Ok(())
                },
            bits,
        ),
    )
}

/// Makes the value the time at `secs` seconds and `nanos` nanoseconds from
/// the epoch, backwards when `before_epoch` is set. `STATUS_OK`, or
/// `STATUS_FAILED` when the value is locked or the offset is not
/// `representable`; a failure leaves the value as it was.
pub fn unixtime_seconds_set(store: &Store, before_epoch: bool, secs: u64, nanos: u32) -> (r: i32)
    ensures
        r == STATUS_OK || r == STATUS_FAILED,
        !representable(before_epoch, secs, nanos) ==> r == STATUS_FAILED,
{
    status_of(
        try_write(
            store,
            &|fval: &mut FlatValue, val: (bool, u64, u32)| -> (o: Result<(), ErrorKind>)
                ensures
                    o is Ok <==> representable(val.0, val.1, val.2),
                    o is Err ==> *final(fval) == *old(fval)
                { fval.set_unixtime(val.0, val.1, val.2) },
            (before_epoch, secs, nanos),
        ),
    )
}

/// Encodes the current value into the buffer. The number of valid bytes
/// there, at most `CAPACITY`, or `STATUS_FAILED` when a lock is not free or
/// the value has no encoding.
pub fn encode<E: Fn(u64) -> Option<Vec<u8>>>(store: &Store, encode_real: &E) -> (r: i32)
    requires
        forall|bits: u64| encode_real.requires((bits,)),
    ensures
        r == STATUS_FAILED || 0 <= r <= CAPACITY,
        r != STATUS_FAILED ==> exists|v: FlatValue, bytes: Vec<u8>| #[trigger]
            is_encoding_of(v, encode_real, Ok(bytes)) && r == copied_len(bytes@.len()),
{
    length_or_failure(_encode(store, encode_real))
}

} // verus!
