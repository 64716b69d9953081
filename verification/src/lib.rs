//! A single typed value (unspecified, boolean, integer, real or timestamp)
//! behind try-locks, with narrow primitive-typed entry points and a canonical
//! DER encoding of the value placed in a bounded buffer.

pub mod boundary;
pub mod buffer;
pub mod encoding;
pub mod error;
pub mod laws;
pub mod store;
pub mod value;

pub use boundary::{
    bool2u8, bool_set_false, bool_set_true, bool_value, encode, integer_set, integer_value,
    is_boolean, is_integer, is_real, is_time, real_set, real_value, unixtime_seconds,
    unixtime_seconds_set, STATUS_FAILED, STATUS_OK,
};
pub use buffer::{copy_prefix, CAPACITY};
pub use error::{ErrorKind, Variant};
pub use store::{
    _encode, _offset, apply_read, apply_write, held_or_contended, initial_buffer, initial_value,
    read_buffer, store_encoding, try_read, try_write, write_buffer, write_held, Store,
};
pub use value::{FlatValue, UnixTime, NANOS_PER_SEC};
