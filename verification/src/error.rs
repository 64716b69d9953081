//! The kinds of failure, and the tags that name a value's variant.

use vstd::prelude::*;

verus! {

/// The tag of a value: which of the five variants is active.
#[derive(Clone, Copy, PartialEq, Eq, Structural, Debug)]
pub enum Variant {
    Unspecified,
    Boolean,
    Integer,
    Real,
    Timestamp,
}

/// Why an operation failed. Every kind is recoverable.
#[derive(Clone, Copy, PartialEq, Eq, Structural, Debug)]
pub enum ErrorKind {
    /// A getter was asked for a payload that the active variant does not hold.
    WrongVariant { expected: Variant, actual: Variant },
    /// The offset from the epoch cannot be held as a timestamp.
    InvalidTimestamp,
    /// The stored time lies before the epoch.
    ClockError,
    /// The slot is locked by somebody else right now.
    LockContention,
    /// The encoder could not serialize the value.
    EncodingError,
}

} // verus!
