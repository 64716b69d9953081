//! The synchronized store: the value and the encoded buffer, each behind a
//! lock of its own that is tried once and never waited for.

use vstd::prelude::*;
use std::sync::{RwLock, RwLockReadGuard, RwLockWriteGuard};
use crate::buffer::{copied_len, copy_prefix, overlay, CAPACITY};
use crate::encoding::is_encoding_of;
use crate::error::ErrorKind;
use crate::value::FlatValue;

verus! {

/// `std::sync::RwLock`: what it holds is never visible to a proof.
#[verifier::external_type_specification]
#[verifier::external_body]
#[verifier::reject_recursive_types(T)]
pub struct ExRwLock<T: ?Sized>(RwLock<T>);

/// `std::sync::RwLockReadGuard`: shared access, given up when it is dropped.
#[verifier::external_type_specification]
#[verifier::external_body]
#[verifier::reject_recursive_types(T)]
pub struct ExRwLockReadGuard<'a, T: ?Sized>(RwLockReadGuard<'a, T>);

/// `std::sync::RwLockWriteGuard`: exclusive access, given up when it is
/// dropped.
#[verifier::external_type_specification]
#[verifier::external_body]
#[verifier::reject_recursive_types(T)]
pub struct ExRwLockWriteGuard<'a, T: ?Sized + 'a>(RwLockWriteGuard<'a, T>);

/// `RwLock::new`: a lock that nobody holds, around `t`. What a lock holds
/// can change under any shared reference, so nothing is stated of it.
pub assume_specification<T>[ RwLock::<T>::new ](t: T) -> (lock: RwLock<T>)
;

/// `RwLock::try_read`, once and without waiting: the shared guard, or `None`
/// when the lock is held for writing or is poisoned.
#[verifier::external_body]
fn try_lock_read<'a, T>(slot: &'a RwLock<T>) -> (r: Option<RwLockReadGuard<'a, T>>) {
    slot.try_read().ok()
}

/// `RwLock::try_write`, once and without waiting: the exclusive guard, or
/// `None` when the lock is held by anyone or is poisoned.
#[verifier::external_body]
fn try_lock_write<'a, T>(slot: &'a RwLock<T>) -> (r: Option<RwLockWriteGuard<'a, T>>) {
    slot.try_write().ok()
}

/// A copy of what a shared guard gives access to (`Deref` on the guard).
#[verifier::external_body]
fn guarded_copy<T: Copy>(guard: &RwLockReadGuard<'_, T>) -> (r: T) {
    **guard
}

/// Exclusive access to what a write guard protects (`DerefMut` on the guard).
#[verifier::external_body]
fn guarded_mut<'g, T>(guard: &'g mut RwLockWriteGuard<'_, T>) -> (r: &'g mut T) {
    &mut **guard
}

/// The address of the first byte behind a shared guard of the buffer
/// (`as_ptr` on the array). A reference never points at address zero.
#[verifier::external_body]
fn guarded_address(guard: &RwLockReadGuard<'_, [u8; CAPACITY]>) -> (r: usize)
    ensures
        r != 0,
{
    guard.as_ptr() as usize
}

/// The two guarded cells: the current value and the most recent encoding.
pub struct Store {
    value: RwLock<FlatValue>,
    encoded: RwLock<[u8; CAPACITY]>,
}

/// What a read answers when the value slot gave `seen`: `LockContention`
/// when the lock was not free, else what `read2val` answers on the value.
pub fn apply_read<F, V>(seen: Option<FlatValue>, read2val: &F) -> (r: Result<V, ErrorKind>)
    where F: Fn(&FlatValue) -> Result<V, ErrorKind>
    requires
        forall|v: FlatValue| read2val.requires((&v,)),
    ensures
        seen matches Some(v) ==> read2val.ensures((&v,), r),
        seen is None ==> r == Err::<V, ErrorKind>(ErrorKind::LockContention),
{
    match seen {
        Some(v) => read2val(&v),
        None => Err(ErrorKind::LockContention),
    }
}

/// Runs `f` once on the value in `slot` and passes its answer on. `f` works
/// on the slot itself: the slot afterwards is what `f` left in it, also when
/// `f` fails after it wrote.
pub fn apply_write<F, V>(slot: &mut FlatValue, f: &F, val: V) -> (r: Result<(), ErrorKind>)
    where F: Fn(&mut FlatValue, V) -> Result<(), ErrorKind>
    requires
        forall|m: &mut FlatValue, x: V| f.requires((m, x)),
    ensures
        exists|m: &mut FlatValue|
            {
                &&& *m == *old(slot)
                &&& #[trigger] f.ensures((m, val), r)
                &&& *final(slot) == *final(m)
            },
{
    f(slot, val)
}

/// What a write comes to when the try of the lock gave `held`:
/// `LockContention` when the lock was refused, and `f` is then not asked;
/// else what `apply_write` makes of the value that the lock gave.
pub fn write_held<F, V>(held: Option<&mut FlatValue>, f: &F, val: V) -> (r: Result<(), ErrorKind>)
    where F: Fn(&mut FlatValue, V) -> Result<(), ErrorKind>
    requires
        forall|m: &mut FlatValue, x: V| f.requires((m, x)),
    ensures
        held is None ==> r == Err::<(), ErrorKind>(ErrorKind::LockContention),
        held matches Some(slot) ==> exists|m: &mut FlatValue|
            {
                &&& *m == *slot
                &&& #[trigger] f.ensures((m, val), r)
                &&& *final(slot) == *final(m)
            },
{
    match held_or_contended(held) {
        Ok(slot) => apply_write(slot, f, val),
        Err(refused) => Err(refused),
    }
}

/// Puts an encoder's answer into the buffer: the bytes of a success are
/// copied to the start of `dst`, cut to `CAPACITY` where they are longer, and
/// the number copied is returned; a failure is passed on and leaves `dst`
/// untouched.
pub fn store_encoding(dst: &mut [u8; CAPACITY], encoding: Result<Vec<u8>, ErrorKind>) -> (r: Result<usize, ErrorKind>)
    ensures
        encoding matches Ok(bytes) ==> {
            &&& r == Ok::<usize, ErrorKind>(copied_len(bytes@.len()) as usize)
            &&& final(dst)@ == overlay(old(dst)@, bytes@)
        },
        encoding matches Err(e) ==> {
            &&& r == Err::<usize, ErrorKind>(e)
            &&& final(dst)@ == old(dst)@
        },
{
    match encoding {
        Ok(bytes) => Ok(copy_prefix(dst, bytes.as_slice())),
        Err(e) => Err(e),
    }
}

/// The value that a new store holds: none is specified yet.
pub fn initial_value() -> (v: FlatValue)
    ensures
        v == FlatValue::Unspecified,
{
    FlatValue::Unspecified
}

/// The buffer that a new store holds: every byte is zero.
pub fn initial_buffer() -> (bytes: [u8; CAPACITY])
    ensures
        forall|i: int| 0 <= i < CAPACITY ==> bytes@[i] == 0,
{
    [0u8; CAPACITY]
}

impl Store {
    /// A store made around `initial_value()` and `initial_buffer()`, with
    /// both locks free.
    pub fn new() -> Store {
        Store { value: RwLock::new(initial_value()), encoded: RwLock::new(initial_buffer()) }
    }
}

/// Reads the value under a shared lock that is tried once: `LockContention`
/// when a writer holds it, else what `read2val` answers on the value seen.
/// The lock is held until `read2val` has answered.
pub fn try_read<F, V>(store: &Store, read2val: &F) -> (r: Result<V, ErrorKind>)
    where F: Fn(&FlatValue) -> Result<V, ErrorKind>
    requires
        forall|v: FlatValue| read2val.requires((&v,)),
    ensures
        r == Err::<V, ErrorKind>(ErrorKind::LockContention) || exists|v: FlatValue| #[trigger]
            read2val.ensures((&v,), r),
{
    let held = try_lock_read(&store.value);
    let seen: Option<FlatValue> = match &held {
        Some(guard) => Some(guarded_copy(guard)),
        None => None,
    };
    apply_read(seen, read2val)
}

/// Changes the value under an exclusive lock that is tried once:
/// `LockContention` when anyone holds it, else what `f` answers on the value
/// and `val`. `f` works on the value itself, so what it wrote before
/// failing stays.
pub fn try_write<F, V>(store: &Store, f: &F, val: V) -> (r: Result<(), ErrorKind>)
    where F: Fn(&mut FlatValue, V) -> Result<(), ErrorKind>
    requires
        forall|m: &mut FlatValue, x: V| f.requires((m, x)),
    ensures
        r == Err::<(), ErrorKind>(ErrorKind::LockContention) || exists|m: &mut FlatValue| #[trigger]
            f.ensures((m, val), r),
{
    let mut held = try_lock_write(&store.value);
    let slot: Option<&mut FlatValue> = match &mut held {
        Some(guard) => Some(guarded_mut(guard)),
        None => None,
    };
    write_held(slot, f, val)
}

/// Reads the encoded buffer under a shared lock that is tried once:
/// `LockContention` when a writer holds it, else what `read2val` answers on
/// the bytes seen. Only the caller knows how many of them are valid.
pub fn read_buffer<F, V>(store: &Store, read2val: &F) -> (r: Result<V, ErrorKind>)
    where F: Fn(&[u8; CAPACITY]) -> Result<V, ErrorKind>
    requires
        forall|bytes: [u8; CAPACITY]| read2val.requires((&bytes,)),
    ensures
        r == Err::<V, ErrorKind>(ErrorKind::LockContention) || exists|bytes: [u8; CAPACITY]| #[trigger]
            read2val.ensures((&bytes,), r),
{
    match held_or_contended(try_lock_read(&store.encoded)) {
        Ok(guard) => {
            let bytes: [u8; CAPACITY] = guarded_copy(&guard);
            read2val(&bytes)
        },
        Err(refused) => Err(refused),
    }
}

/// Changes the encoded buffer under an exclusive lock that is tried once:
/// `LockContention` when anyone holds it, else what `f` answers. `f` works
/// on the buffer itself, so what it wrote before failing stays.
pub fn write_buffer<F, V>(store: &Store, f: &F) -> (r: Result<V, ErrorKind>)
    where F: Fn(&mut [u8; CAPACITY]) -> Result<V, ErrorKind>
    requires
        forall|m: &mut [u8; CAPACITY]| f.requires((m,)),
    ensures
        r == Err::<V, ErrorKind>(ErrorKind::LockContention) || exists|m: &mut [u8; CAPACITY]| #[trigger]
            f.ensures((m,), r),
{
    match held_or_contended(try_lock_write(&store.encoded)) {
        Ok(mut guard) => f(guarded_mut(&mut guard)),
        Err(refused) => Err(refused),
    }
}

/// The address of the first byte of the encoded buffer, taken under a shared
/// lock that is tried once; `LockContention` when a writer holds it.
pub fn _offset(store: &Store) -> (r: Result<usize, ErrorKind>)
    ensures
        r matches Ok(address) ==> address != 0,
        r matches Err(e) ==> e == ErrorKind::LockContention,
{
    let address: Option<usize> = match try_lock_read(&store.encoded) {
        Some(guard) => Some(guarded_address(&guard)),
        None => None,
    };
    held_or_contended(address)
}

/// Encodes the current value into the buffer and returns the number of bytes
/// that are valid there. The buffer is locked first, then the value is read
/// and encoded; an encoding longer than the buffer is cut to `CAPACITY`.
/// `LockContention` when either lock is not free, `EncodingError` when the
/// value has no encoding; on a failure the buffer is untouched.
pub fn _encode<E: Fn(u64) -> Option<Vec<u8>>>(store: &Store, encode_real: &E) -> (r: Result<usize, ErrorKind>)
    requires
        forall|bits: u64| encode_real.requires((bits,)),
    ensures
        r matches Ok(len) ==> exists|v: FlatValue, bytes: Vec<u8>| #[trigger]
            is_encoding_of(v, encode_real, Ok(bytes)) && len == copied_len(bytes@.len()),
        r matches Err(e) ==> e == ErrorKind::LockContention || e == ErrorKind::EncodingError,
{
    match held_or_contended(try_lock_write(&store.encoded)) {
        Ok(mut guard) => {
            let encoding = try_read(
                store,
                &|fv: &FlatValue| -> (o: Result<Vec<u8>, ErrorKind>)
                    ensures
                        is_encoding_of(*fv, encode_real, o)
                    { fv.to_der_bytes(encode_real) },
            );
            store_encoding(guarded_mut(&mut guard), encoding)
        },
        Err(refused) => Err(refused),
    }
}

/// What a try of a lock comes to: what was got under the lock, or
/// `LockContention` when the lock was not free.
pub fn held_or_contended<T>(held: Option<T>) -> (r: Result<T, ErrorKind>)
    ensures
        held matches Some(got) ==> r == Ok::<T, ErrorKind>(got),
        held is None ==> r == Err::<T, ErrorKind>(ErrorKind::LockContention),
{
    match held {
        Some(got) => Ok(got),
        None => Err(ErrorKind::LockContention),
    }
}

} // verus!
