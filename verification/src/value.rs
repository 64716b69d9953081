//! The tagged value: its variants, predicates, getters and setters.

use vstd::prelude::*;
use crate::error::{ErrorKind, Variant};

verus! {

/// Nanoseconds in one second.
pub const NANOS_PER_SEC: u32 = 1_000_000_000;

/// An absolute point in time: whole seconds relative to the Unix epoch
/// (negative before it) and the nanoseconds past that second.
#[derive(Clone, Copy, PartialEq, Eq, Structural, Debug)]
pub struct UnixTime {
    secs: i64,
    nanos: u32,
}

impl UnixTime {
    #[verifier::type_invariant]
    spec fn inv(self) -> bool {
        self.nanos < NANOS_PER_SEC
    }

    /// Whole seconds since the epoch, rounded down.
    pub closed spec fn secs(self) -> int {
        self.secs as int
    }

    /// Nanoseconds past `secs()`.
    pub closed spec fn nanos(self) -> int {
        self.nanos as int
    }

    /// Every value that executable code can hold is well formed.
    pub open spec fn wf(self) -> bool {
        &&& i64::MIN <= self.secs() <= i64::MAX
        &&& 0 <= self.nanos() < NANOS_PER_SEC
    }

    /// The point in time as nanoseconds relative to the epoch.
    pub open spec fn since_epoch(self) -> int {
        self.secs() * NANOS_PER_SEC + self.nanos()
    }

    /// The time `secs` seconds and `nanos` nanoseconds after the epoch
    /// (`secs` may be negative); `None` when `nanos` is a second or more.
    pub fn new(secs: i64, nanos: u32) -> (r: Option<UnixTime>)
        ensures
            nanos < NANOS_PER_SEC ==> (r matches Some(t) && t.wf() && t.secs() == secs && t.nanos()
                == nanos),
            nanos >= NANOS_PER_SEC ==> r is None,
    {
        if nanos < NANOS_PER_SEC {
            Some(UnixTime { secs, nanos })
        } else {
            None
        }
    }

    /// Whole seconds relative to the epoch, rounded down.
    pub fn seconds(&self) -> (r: i64)
        ensures
            r == self.secs(),
    {
        self.secs
    }

    /// Nanoseconds past the whole second; always below one second.
    pub fn subsec_nanos(&self) -> (r: u32)
        ensures
            r == self.nanos(),
            r < NANOS_PER_SEC,
    {
        proof {
            use_type_invariant(self);
        }
        self.nanos
    }

    /// Two times with the same seconds and nanoseconds are the same time.
    pub proof fn lemma_same_fields_same_time(a: UnixTime, b: UnixTime)
        requires
            a.secs() == b.secs(),
            a.nanos() == b.nanos(),
        ensures
            a == b,
    {
    }
}

/// The value: exactly one variant is active at any time.
#[derive(Clone, Copy, PartialEq, Eq, Structural, Debug)]
pub enum FlatValue {
    Unspecified,
    Boolean(bool),
    Integer(i64),
    /// A double, held as its IEEE 754 bit pattern.
    Real(u64),
    GeneralizedTime(UnixTime),
}

/// Whether an offset from the epoch can be held as a timestamp: it must not
/// reach back before the epoch, its seconds must fit the signed range, and
/// its nanoseconds must stay below one second.
pub open spec fn representable(before_epoch: bool, secs: u64, nanos: u32) -> bool {
    &&& !before_epoch
    &&& secs <= i64::MAX
    &&& nanos < NANOS_PER_SEC
}

impl FlatValue {
    /// The tag of the active variant.
    pub open spec fn spec_variant(&self) -> Variant {
        match *self {
            FlatValue::Unspecified => Variant::Unspecified,
            FlatValue::Boolean(_) => Variant::Boolean,
            FlatValue::Integer(_) => Variant::Integer,
            FlatValue::Real(_) => Variant::Real,
            FlatValue::GeneralizedTime(_) => Variant::Timestamp,
        }
    }

    /// The predicates answer as they must when `active` is the active
    /// variant: the one that asks for `active` says yes, and every other says
    /// no. No predicate asks for `Unspecified`.
    pub open spec fn only_active(&self, active: Variant) -> bool {
        &&& self.spec_variant() == active
        &&& self.spec_is_boolean() == (active == Variant::Boolean)
        &&& self.spec_is_integer() == (active == Variant::Integer)
        &&& self.spec_is_real() == (active == Variant::Real)
        &&& self.spec_is_time() == (active == Variant::Timestamp)
    }

    /// What a getter that expects `expected` answers on this value when
    /// another variant is active.
    pub open spec fn mismatch(&self, expected: Variant) -> ErrorKind {
        ErrorKind::WrongVariant { expected, actual: self.spec_variant() }
    }

    /// Whether the boolean variant is active.
    pub open spec fn spec_is_boolean(&self) -> bool {
        *self is Boolean
    }

    /// Whether the integer variant is active.
    pub open spec fn spec_is_integer(&self) -> bool {
        *self is Integer
    }

    /// Whether the real variant is active.
    pub open spec fn spec_is_real(&self) -> bool {
        *self is Real
    }

    /// Whether the timestamp variant is active.
    pub open spec fn spec_is_time(&self) -> bool {
        *self is GeneralizedTime
    }

    /// What the getter of the boolean answers.
    pub open spec fn spec_boolean_value(&self) -> Result<bool, ErrorKind> {
        match *self {
            FlatValue::Boolean(b) => Ok(b),
            _ => Err(self.mismatch(Variant::Boolean)),
        }
    }

    /// What the getter of the integer answers.
    pub open spec fn spec_integer_value(&self) -> Result<i64, ErrorKind> {
        match *self {
            FlatValue::Integer(i) => Ok(i),
            _ => Err(self.mismatch(Variant::Integer)),
        }
    }

    /// What the getter of the real answers: the bit pattern as it was set.
    pub open spec fn spec_real_value(&self) -> Result<u64, ErrorKind> {
        match *self {
            FlatValue::Real(bits) => Ok(bits),
            _ => Err(self.mismatch(Variant::Real)),
        }
    }

    /// What the getter of the time answers: the seconds and nanoseconds
    /// elapsed since the epoch, unless the time lies before it.
    pub open spec fn spec_unixtime_value(&self) -> Result<(u64, u32), ErrorKind> {
        match *self {
            FlatValue::GeneralizedTime(t) => if t.secs() >= 0 {
                Ok((t.secs() as u64, t.nanos() as u32))
            } else {
                Err(ErrorKind::ClockError)
            },
            _ => Err(self.mismatch(Variant::Timestamp)),
        }
    }

    /// The tag of the active variant.
    #[verifier::when_used_as_spec(spec_variant)]
    pub fn variant(&self) -> (r: Variant)
        ensures
            r == self.spec_variant(),
    {
        match self {
            FlatValue::Unspecified => Variant::Unspecified,
            FlatValue::Boolean(_) => Variant::Boolean,
            FlatValue::Integer(_) => Variant::Integer,
            FlatValue::Real(_) => Variant::Real,
            FlatValue::GeneralizedTime(_) => Variant::Timestamp,
        }
    }

    /// True exactly when the boolean variant is active.
    #[verifier::when_used_as_spec(spec_is_boolean)]
    pub fn is_boolean(&self) -> (r: bool)
        ensures
            r == self.spec_is_boolean(),
    {
        matches!(self, Self::Boolean(_))
    }

    /// True exactly when the integer variant is active.
    #[verifier::when_used_as_spec(spec_is_integer)]
    pub fn is_integer(&self) -> (r: bool)
        ensures
            r == self.spec_is_integer(),
    {
        matches!(self, Self::Integer(_))
    }

    /// True exactly when the real variant is active.
    #[verifier::when_used_as_spec(spec_is_real)]
    pub fn is_real(&self) -> (r: bool)
        ensures
            r == self.spec_is_real(),
    {
        matches!(self, Self::Real(_))
    }

    /// True exactly when the timestamp variant is active.
    #[verifier::when_used_as_spec(spec_is_time)]
    pub fn is_time(&self) -> (r: bool)
        ensures
            r == self.spec_is_time(),
    {
        matches!(self, Self::GeneralizedTime(_))
    }

    /// The boolean payload, or `WrongVariant` when another variant is active.
    #[verifier::when_used_as_spec(spec_boolean_value)]
    pub fn boolean_value(&self) -> (r: Result<bool, ErrorKind>)
        ensures
            r == self.spec_boolean_value(),
    {
        match self {
            Self::Boolean(b) => Ok(*b),
            _ => Err(ErrorKind::WrongVariant { expected: Variant::Boolean, actual: self.variant() }),
        }
    }

    /// The integer payload, or `WrongVariant` when another variant is active.
    #[verifier::when_used_as_spec(spec_integer_value)]
    pub fn integer_value(&self) -> (r: Result<i64, ErrorKind>)
        ensures
            r == self.spec_integer_value(),
    {
        match self {
            Self::Integer(i) => Ok(*i),
            _ => Err(ErrorKind::WrongVariant { expected: Variant::Integer, actual: self.variant() }),
        }
    }

    /// The bit pattern of the real payload, or `WrongVariant` when another
    /// variant is active. Every pattern comes back as it went in: a NaN keeps
    /// its payload, and the two zeros and the two infinities keep their sign.
    #[verifier::when_used_as_spec(spec_real_value)]
    pub fn real_value(&self) -> (r: Result<u64, ErrorKind>)
        ensures
            r == self.spec_real_value(),
    {
        match self {
            Self::Real(bits) => Ok(*bits),
            _ => Err(ErrorKind::WrongVariant { expected: Variant::Real, actual: self.variant() }),
        }
    }

    /// The stored time as whole seconds and nanoseconds elapsed since the
    /// epoch; `ClockError` when the stored time lies before the epoch, and
    /// `WrongVariant` when another variant is active.
    #[verifier::when_used_as_spec(spec_unixtime_value)]
    pub fn unixtime_value(&self) -> (r: Result<(u64, u32), ErrorKind>)
        ensures
            r == self.spec_unixtime_value(),
    {
        match self {
            Self::GeneralizedTime(t) => {
                let secs: i64 = t.seconds();
                if secs >= 0 {
                    Ok((secs as u64, t.subsec_nanos()))
                } else {
                    Err(ErrorKind::ClockError)
                }
            },
            _ => Err(ErrorKind::WrongVariant { expected: Variant::Timestamp, actual: self.variant() }),
        }
    }

    /// Makes the boolean variant active, with payload `b`.
    pub fn set_boolean(&mut self, b: bool)
        ensures
            *final(self) == FlatValue::Boolean(b),
            final(self).only_active(Variant::Boolean),
            final(self).boolean_value() == Ok::<bool, ErrorKind>(b),
    {
        *self = FlatValue::Boolean(b);
    }

    /// Makes the integer variant active, with payload `i`.
    pub fn set_integer(&mut self, i: i64)
        ensures
            *final(self) == FlatValue::Integer(i),
            final(self).only_active(Variant::Integer),
            final(self).integer_value() == Ok::<i64, ErrorKind>(i),
    {
        *self = FlatValue::Integer(i);
    }

    /// Makes the real variant active; `bits` is the double's bit pattern,
    /// which is kept as it is, whatever number or not-a-number it stands for.
    pub fn set_real(&mut self, bits: u64)
        ensures
            *final(self) == FlatValue::Real(bits),
            final(self).only_active(Variant::Real),
            final(self).real_value() == Ok::<u64, ErrorKind>(bits),
    {
        *self = FlatValue::Real(bits);
    }

    /// Makes the timestamp variant active, at `secs` seconds and `nanos`
    /// nanoseconds after the epoch. `before_epoch` says that the offset
    /// points backwards: such an offset is refused whatever its size, as is
    /// every other that is not `representable`. A refusal is
    /// `InvalidTimestamp`, and the value then stays as it was.
    pub fn set_unixtime(&mut self, before_epoch: bool, secs: u64, nanos: u32) -> (r: Result<(), ErrorKind>)
        ensures
            representable(before_epoch, secs, nanos) ==> {
                &&& r == Ok::<(), ErrorKind>(())
                &&& *final(self) matches FlatValue::GeneralizedTime(t) && t.wf() && t.secs() == secs
                    && t.nanos() == nanos
                &&& final(self).only_active(Variant::Timestamp)
                &&& final(self).unixtime_value() == Ok::<(u64, u32), ErrorKind>((secs, nanos))
            },
            !representable(before_epoch, secs, nanos) ==> {
                &&& r == Err::<(), ErrorKind>(ErrorKind::InvalidTimestamp)
                &&& *final(self) == *old(self)
            },
    {
        if before_epoch || secs > 0x7fff_ffff_ffff_ffff {
            return Err(ErrorKind::InvalidTimestamp);
        }
        match UnixTime::new(secs as i64, nanos) {
            Some(t) => {
                *self = FlatValue::GeneralizedTime(t);
                Ok(())
            },
            None => Err(ErrorKind::InvalidTimestamp),
        }
    }
}

} // verus!
