//! What holds of the value, its encoding and the sentinels, for all inputs.

use vstd::prelude::*;
use crate::boundary::{
    spec_flag_or_zero, spec_integer_or_zero, spec_payload_or_none, spec_status_of, STATUS_FAILED,
};
use crate::buffer::{copied_len, overlay, CAPACITY};
use crate::encoding::{
    boolean_bytes, integer_bytes, integer_content, is_encoding_of, null_bytes, MAX_ENCODABLE_SECS,
};
use crate::error::{ErrorKind, Variant};
use crate::value::{representable, FlatValue, UnixTime};

verus! {

/// Exactly one variant is active at any time: the predicates answer for the
/// value's own tag and for no other, so no two of them hold together.
pub proof fn law_one_variant_is_active(v: FlatValue)
    ensures
        v.only_active(v.spec_variant()),
        !(v.spec_is_boolean() && v.spec_is_integer()),
        !(v.spec_is_boolean() && v.spec_is_real()),
        !(v.spec_is_boolean() && v.spec_is_time()),
        !(v.spec_is_integer() && v.spec_is_real()),
        !(v.spec_is_integer() && v.spec_is_time()),
        !(v.spec_is_real() && v.spec_is_time()),
{
}

/// Right after a boolean, an integer or a real was set, the predicate of that
/// variant holds and the three others do not, whatever the value was before.
pub proof fn law_set_selects_variant(b: bool, i: i64, bits: u64)
    ensures
        FlatValue::Boolean(b).only_active(Variant::Boolean),
        FlatValue::Integer(i).only_active(Variant::Integer),
        FlatValue::Real(bits).only_active(Variant::Real),
{
}

/// A time that was set is a timestamp and nothing else.
pub proof fn law_set_time_selects_timestamp(t: UnixTime)
    ensures
        FlatValue::GeneralizedTime(t).only_active(Variant::Timestamp),
{
}

/// An integer that was set is the integer that is read.
pub proof fn law_integer_round_trip(i: i64)
    ensures
        FlatValue::Integer(i).spec_integer_value() == Ok::<i64, ErrorKind>(i),
        spec_integer_or_zero(FlatValue::Integer(i).spec_integer_value()) == i,
{
}

/// A boolean that was set is the boolean that is read.
pub proof fn law_boolean_round_trip(b: bool)
    ensures
        FlatValue::Boolean(b).spec_boolean_value() == Ok::<bool, ErrorKind>(b),
        spec_flag_or_zero(FlatValue::Boolean(b).spec_boolean_value()) == (if b { 0xffu8 } else { 0x00u8 }),
{
}

/// A real that was set is read back bit for bit: not-a-number keeps its
/// payload, and zeros and infinities keep their sign.
pub proof fn law_real_round_trip(bits: u64)
    ensures
        FlatValue::Real(bits).spec_real_value() == Ok::<u64, ErrorKind>(bits),
        spec_payload_or_none(FlatValue::Real(bits).spec_real_value()) == Some(bits),
{
}

/// A time at or after the epoch is read back as the seconds and nanoseconds
/// it was made of, and they add up to its distance from the epoch.
pub proof fn law_time_round_trip(t: UnixTime)
    requires
        t.wf(),
        t.since_epoch() >= 0,
    ensures
        FlatValue::GeneralizedTime(t).spec_unixtime_value() matches Ok((secs, nanos)) && secs
            == t.secs() && nanos == t.nanos() && secs * 1_000_000_000 + nanos == t.since_epoch(),
{
}

/// The getter of the time fails with `ClockError` exactly when the stored
/// time lies before the epoch, were it by one nanosecond.
pub proof fn law_clock_error_iff_before_epoch(t: UnixTime)
    requires
        t.wf(),
    ensures
        t.since_epoch() < 0 <==> FlatValue::GeneralizedTime(t).spec_unixtime_value() == Err::<
            (u64, u32),
            ErrorKind,
        >(ErrorKind::ClockError),
{
}

/// An offset that reaches back before the epoch is never representable, nor
/// is one whose seconds or nanoseconds are out of range; the setter refuses
/// exactly these, and its status is then the failure sentinel.
pub proof fn law_unrepresentable_offsets(before_epoch: bool, secs: u64, nanos: u32)
    ensures
        before_epoch ==> !representable(before_epoch, secs, nanos),
        secs > i64::MAX ==> !representable(before_epoch, secs, nanos),
        nanos >= 1_000_000_000 ==> !representable(before_epoch, secs, nanos),
        !before_epoch && secs <= i64::MAX && nanos < 1_000_000_000 ==> representable(
            before_epoch,
            secs,
            nanos,
        ),
        spec_status_of(Err(ErrorKind::InvalidTimestamp)) == STATUS_FAILED,
{
}

/// A getter that is asked for another variant than the active one fails with
/// `WrongVariant`, which names both, and the boundary shows the sentinel of
/// its return type: zero for a flag and for an integer, nothing for a real
/// and for a time.
pub proof fn law_mismatch_gives_sentinel(v: FlatValue)
    ensures
        !v.spec_is_boolean() ==> v.spec_boolean_value() == Err::<bool, ErrorKind>(
            ErrorKind::WrongVariant { expected: Variant::Boolean, actual: v.spec_variant() },
        ) && spec_flag_or_zero(v.spec_boolean_value()) == 0x00,
        !v.spec_is_integer() ==> v.spec_integer_value() == Err::<i64, ErrorKind>(
            ErrorKind::WrongVariant { expected: Variant::Integer, actual: v.spec_variant() },
        ) && spec_integer_or_zero(v.spec_integer_value()) == 0,
        !v.spec_is_real() ==> v.spec_real_value() == Err::<u64, ErrorKind>(
            ErrorKind::WrongVariant { expected: Variant::Real, actual: v.spec_variant() },
        ) && spec_payload_or_none(v.spec_real_value()) is None,
        !v.spec_is_time() ==> v.spec_unixtime_value() == Err::<(u64, u32), ErrorKind>(
            ErrorKind::WrongVariant { expected: Variant::Timestamp, actual: v.spec_variant() },
        ) && spec_payload_or_none(v.spec_unixtime_value()) is None,
{
}

/// Every failure, of whatever kind, shows as the same sentinel: the caller
/// cannot tell the kinds apart.
pub proof fn law_failures_are_indistinguishable(a: ErrorKind, b: ErrorKind)
    ensures
        spec_flag_or_zero(Err(a)) == spec_flag_or_zero(Err(b)),
        spec_integer_or_zero(Err(a)) == spec_integer_or_zero(Err(b)),
        spec_payload_or_none::<u64>(Err(a)) == spec_payload_or_none::<u64>(Err(b)),
        spec_status_of(Err(a)) == spec_status_of(Err(b)),
{
}

/// An encoding that does not fit is cut: exactly `CAPACITY` bytes are copied,
/// they are the first `CAPACITY` bytes of the encoding, and nothing says
/// that bytes were lost.
pub proof fn law_oversized_encoding_is_cut(before: Seq<u8>, src: Seq<u8>)
    requires
        before.len() == CAPACITY,
        src.len() > CAPACITY,
    ensures
        copied_len(src.len()) == CAPACITY,
        overlay(before, src) == src.subrange(0, CAPACITY as int),
{
    assert(overlay(before, src) =~= src.subrange(0, CAPACITY as int));
}

/// An encoding that fits is copied whole, and the bytes behind it are the
/// stale ones that the buffer held before.
pub proof fn law_fitting_encoding_keeps_stale_tail(before: Seq<u8>, src: Seq<u8>)
    requires
        before.len() == CAPACITY,
        src.len() <= CAPACITY,
    ensures
        copied_len(src.len()) == src.len(),
        overlay(before, src).subrange(0, src.len() as int) == src,
        overlay(before, src).subrange(src.len() as int, CAPACITY as int) == before.subrange(
            src.len() as int,
            CAPACITY as int,
        ),
{
    assert(overlay(before, src).subrange(0, src.len() as int) =~= src);
    assert(overlay(before, src).subrange(src.len() as int, CAPACITY as int) =~= before.subrange(
        src.len() as int,
        CAPACITY as int,
    ));
}

/// Encoding is a function of the value: two encodings of one value that is
/// not a real end alike, both with the same bytes or both with
/// `EncodingError`. For a real the outcome is that of the encoder that the
/// caller brought.
pub proof fn law_encoding_is_deterministic<E: Fn(u64) -> Option<Vec<u8>>>(
    v: FlatValue,
    encode_real: &E,
    first: Result<Vec<u8>, ErrorKind>,
    second: Result<Vec<u8>, ErrorKind>,
)
    requires
        !v.spec_is_real(),
        is_encoding_of(v, encode_real, first),
        is_encoding_of(v, encode_real, second),
    ensures
        first is Ok <==> second is Ok,
        first is Ok ==> first->Ok_0@ == second->Ok_0@,
        first is Err ==> first->Err_0 == ErrorKind::EncodingError && second->Err_0
            == ErrorKind::EncodingError,
{
}

/// A time has an encoding exactly when it lies at or after the epoch and no
/// later than the last second that `der` encodes; the value without a
/// payload, a boolean and an integer always have one.
pub proof fn law_encoding_succeeds_in_range<E: Fn(u64) -> Option<Vec<u8>>>(
    v: FlatValue,
    encode_real: &E,
    r: Result<Vec<u8>, ErrorKind>,
)
    requires
        is_encoding_of(v, encode_real, r),
        v matches FlatValue::GeneralizedTime(t) ==> t.wf(),
    ensures
        v == FlatValue::Unspecified || v.spec_is_boolean() || v.spec_is_integer() ==> r is Ok,
        v matches FlatValue::GeneralizedTime(t) ==> (r is Ok <==> 0 <= t.since_epoch()
            <= MAX_ENCODABLE_SECS * 1_000_000_000),
{
}

/// Storing the same encoding again changes nothing: the buffer and the
/// length are those of the first time.
pub proof fn law_storing_again_changes_nothing(before: Seq<u8>, src: Seq<u8>)
    requires
        before.len() == CAPACITY,
    ensures
        overlay(overlay(before, src), src) == overlay(before, src),
{
    assert(overlay(overlay(before, src), src) =~= overlay(before, src));
}

/// The contents of an integer's encoding take between one and eight bytes,
/// so the whole encoding takes at most ten.
pub proof fn law_integer_encoding_is_short(i: i64)
    ensures
        1 <= integer_content(i as int).len() <= 8,
        3 <= integer_bytes(i).len() <= 10,
        integer_bytes(i)[0] == 0x02,
        integer_bytes(i)[1] == integer_content(i as int).len(),
{
    reveal_with_fuel(integer_content, 9);
}

/// Only the encoding of a real, which the caller's encoder makes, can be too
/// long for the buffer: every other encoding takes at most seventeen bytes
/// and is copied whole.
pub proof fn law_only_a_real_can_be_cut<E: Fn(u64) -> Option<Vec<u8>>>(
    v: FlatValue,
    encode_real: &E,
    bytes: Vec<u8>,
)
    requires
        !v.spec_is_real(),
        is_encoding_of(v, encode_real, Ok(bytes)),
    ensures
        2 <= bytes@.len() <= 17,
        copied_len(bytes@.len()) == bytes@.len(),
        v == FlatValue::Unspecified ==> bytes@ == null_bytes(),
        v matches FlatValue::Boolean(b) ==> bytes@ == boolean_bytes(b),
        v matches FlatValue::Integer(i) ==> bytes@ == integer_bytes(i),
{
    if let FlatValue::Integer(i) = v {
        law_integer_encoding_is_short(i);
    }
}

} // verus!
