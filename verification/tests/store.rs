use der::{Decode, Encode};
use flat_value::{
    _encode, _offset, apply_read, apply_write, held_or_contended, initial_buffer, initial_value,
    read_buffer, try_read, try_write, write_buffer, write_held, ErrorKind, FlatValue, Store,
    CAPACITY,
};
use std::cell::Cell;

fn encode_real(bits: u64) -> Option<Vec<u8>> {
    f64::from_bits(bits).to_der().ok()
}

fn put(store: &Store, value: FlatValue) {
    let done = try_write(
        store,
        &|slot: &mut FlatValue, v: FlatValue| {
            *slot = v;
            Ok(())
        },
        value,
    );
    assert_eq!(done, Ok(()));
}

fn current(store: &Store) -> FlatValue {
    try_read(store, &|v: &FlatValue| Ok(*v)).unwrap()
}

fn valid_bytes(store: &Store, len: usize) -> Vec<u8> {
    read_buffer(store, &|bytes: &[u8; CAPACITY]| Ok(bytes[..len].to_vec())).unwrap()
}

#[test]
fn a_new_store_holds_unspecified_and_zeros() {
    let store = Store::new();
    assert_eq!(current(&store), FlatValue::Unspecified);
    assert_eq!(valid_bytes(&store, CAPACITY), vec![0u8; CAPACITY]);
}

#[test]
fn a_write_is_seen_by_the_next_read() {
    let store = Store::new();
    put(&store, FlatValue::Integer(31));
    assert_eq!(current(&store), FlatValue::Integer(31));
    assert_eq!(try_read(&store, &|v: &FlatValue| v.integer_value()), Ok(31));
}

#[test]
fn a_read_passes_the_closures_error_on() {
    let store = Store::new();
    let r = try_read(&store, &|v: &FlatValue| v.integer_value());
    assert!(matches!(r, Err(ErrorKind::WrongVariant { .. })));
}

#[test]
fn a_failed_write_keeps_what_the_closure_wrote() {
    let store = Store::new();
    put(&store, FlatValue::Boolean(true));
    let r = try_write(
        &store,
        &|slot: &mut FlatValue, v: i64| {
            *slot = FlatValue::Integer(v);
            Err(ErrorKind::InvalidTimestamp)
        },
        5,
    );
    assert_eq!(r, Err(ErrorKind::InvalidTimestamp));
    assert_eq!(current(&store), FlatValue::Integer(5));
}

#[test]
fn a_write_that_fails_unwritten_leaves_the_value() {
    let store = Store::new();
    put(&store, FlatValue::Boolean(true));
    let r = try_write(
        &store,
        &|slot: &mut FlatValue, v: (bool, u64, u32)| slot.set_unixtime(v.0, v.1, v.2),
        (true, 1, 0),
    );
    assert_eq!(r, Err(ErrorKind::InvalidTimestamp));
    assert_eq!(current(&store), FlatValue::Boolean(true));
}

#[test]
fn a_write_during_a_read_is_lock_contention() {
    let store = Store::new();
    put(&store, FlatValue::Integer(2));
    let r = try_read(&store, &|seen: &FlatValue| {
        let inner = try_write(
            &store,
            &|slot: &mut FlatValue, v: i64| {
                *slot = FlatValue::Integer(v);
                Ok(())
            },
            3,
        );
        Ok((*seen, inner))
    });
    assert_eq!(r, Ok((FlatValue::Integer(2), Err(ErrorKind::LockContention))));
    assert_eq!(current(&store), FlatValue::Integer(2));
}

#[test]
fn a_second_encode_of_an_unchanged_value_repeats_itself() {
    let store = Store::new();
    let mut values = vec![
        FlatValue::Unspecified,
        FlatValue::Boolean(true),
        FlatValue::Integer(-70_000),
        FlatValue::Real(6.5f64.to_bits()),
    ];
    let mut time = FlatValue::Unspecified;
    assert_eq!(time.set_unixtime(false, 1_700_000_000, 999), Ok(()));
    values.push(time);
    for value in values {
        put(&store, value);
        let first = _encode(&store, &encode_real);
        assert!(first.is_ok());
        let buffer = valid_bytes(&store, CAPACITY);
        assert_eq!(_encode(&store, &encode_real), first);
        assert_eq!(valid_bytes(&store, CAPACITY), buffer);
        assert_eq!(current(&store), value);
    }
}

#[test]
fn a_read_during_a_write_is_lock_contention() {
    let store = Store::new();
    let seen: Cell<Option<Result<FlatValue, ErrorKind>>> = Cell::new(None);
    let r = try_write(
        &store,
        &|slot: &mut FlatValue, v: i64| {
            seen.set(Some(try_read(&store, &|inner: &FlatValue| Ok(*inner))));
            *slot = FlatValue::Integer(v);
            Ok(())
        },
        8,
    );
    assert_eq!(r, Ok(()));
    assert_eq!(seen.get(), Some(Err(ErrorKind::LockContention)));
    assert_eq!(current(&store), FlatValue::Integer(8));
}

#[test]
fn a_write_during_a_write_is_lock_contention() {
    let store = Store::new();
    let inner: Cell<Option<Result<(), ErrorKind>>> = Cell::new(None);
    let r = try_write(
        &store,
        &|_slot: &mut FlatValue, _v: ()| {
            inner.set(Some(try_write(
                &store,
                &|s: &mut FlatValue, _u: ()| {
                    *s = FlatValue::Integer(1);
                    Ok(())
                },
                (),
            )));
            Ok(())
        },
        (),
    );
    assert_eq!(r, Ok(()));
    assert_eq!(inner.get(), Some(Err(ErrorKind::LockContention)));
    assert_eq!(current(&store), FlatValue::Unspecified);
}

#[test]
fn reads_may_overlap() {
    let store = Store::new();
    put(&store, FlatValue::Integer(2));
    let r = try_read(&store, &|outer: &FlatValue| {
        let inner = try_read(&store, &|v: &FlatValue| v.integer_value())?;
        Ok((outer.integer_value()?, inner))
    });
    assert_eq!(r, Ok((2, 2)));
}

#[test]
fn the_two_slots_lock_apart() {
    let store = Store::new();
    put(&store, FlatValue::Integer(3));
    let r = write_buffer(&store, &|bytes: &mut [u8; CAPACITY]| {
        bytes[0] = 0x11;
        try_read(&store, &|v: &FlatValue| v.integer_value())
    });
    assert_eq!(r, Ok(3));
    assert_eq!(valid_bytes(&store, 1), vec![0x11]);
}

#[test]
fn encode_writes_the_encoding_and_returns_its_length() {
    let store = Store::new();
    put(&store, FlatValue::Integer(128));
    assert_eq!(_encode(&store, &encode_real), Ok(4));
    assert_eq!(valid_bytes(&store, 4), vec![0x02, 0x02, 0x00, 0x80]);
}

#[test]
fn encode_of_a_new_store_is_null() {
    let store = Store::new();
    assert_eq!(_encode(&store, &encode_real), Ok(2));
    assert_eq!(valid_bytes(&store, 2), vec![0x05, 0x00]);
}

#[test]
fn encode_of_true_decodes_to_true() {
    let store = Store::new();
    put(&store, FlatValue::Boolean(true));
    let len = _encode(&store, &encode_real).unwrap();
    let bytes = valid_bytes(&store, len);
    assert_eq!(bool::from_der(&bytes).unwrap(), true);
}

#[test]
fn encode_of_a_real_uses_the_encoder() {
    let store = Store::new();
    put(&store, FlatValue::Real(1.5f64.to_bits()));
    let len = _encode(&store, &encode_real).unwrap();
    let bytes = valid_bytes(&store, len);
    assert_eq!(f64::from_der(&bytes).unwrap(), 1.5);
}

#[test]
fn a_shorter_encoding_leaves_stale_bytes_behind_it() {
    let store = Store::new();
    put(&store, FlatValue::Integer(i64::MAX));
    assert_eq!(_encode(&store, &encode_real), Ok(10));
    put(&store, FlatValue::Boolean(false));
    assert_eq!(_encode(&store, &encode_real), Ok(3));
    let bytes = valid_bytes(&store, 10);
    assert_eq!(&bytes[..3], &[0x01, 0x01, 0x00]);
    assert_eq!(&bytes[3..], &[0xff, 0xff, 0xff, 0xff, 0xff, 0xff, 0xff]);
}

#[test]
fn an_oversized_encoding_is_cut_in_the_store() {
    let store = Store::new();
    put(&store, FlatValue::Real(0));
    let long = |_bits: u64| Some((0..1500usize).map(|i| (i % 256) as u8).collect::<Vec<u8>>());
    assert_eq!(_encode(&store, &long), Ok(1024));
    let expected: Vec<u8> = (0..1024usize).map(|i| (i % 256) as u8).collect();
    assert_eq!(valid_bytes(&store, CAPACITY), expected);
}

#[test]
fn a_failed_encoding_leaves_the_buffer() {
    let store = Store::new();
    put(&store, FlatValue::Integer(1));
    assert_eq!(_encode(&store, &encode_real), Ok(3));
    put(&store, FlatValue::Real(1));
    assert_eq!(_encode(&store, &|_bits: u64| None), Err(ErrorKind::EncodingError));
    assert_eq!(valid_bytes(&store, 3), vec![0x02, 0x01, 0x01]);
}

#[test]
fn encode_while_the_value_is_written_is_lock_contention() {
    let store = Store::new();
    assert_eq!(_encode(&store, &encode_real), Ok(2));
    let inner: Cell<Option<Result<usize, ErrorKind>>> = Cell::new(None);
    let r = try_write(
        &store,
        &|slot: &mut FlatValue, v: i64| {
            inner.set(Some(_encode(&store, &encode_real)));
            *slot = FlatValue::Integer(v);
            Ok(())
        },
        300,
    );
    assert_eq!(r, Ok(()));
    assert_eq!(inner.get(), Some(Err(ErrorKind::LockContention)));
    assert_eq!(valid_bytes(&store, 2), vec![0x05, 0x00]);
}

#[test]
fn encode_while_the_buffer_is_held_is_lock_contention() {
    let store = Store::new();
    let while_read = read_buffer(&store, &|_bytes: &[u8; CAPACITY]| {
        Ok(_encode(&store, &encode_real))
    });
    assert_eq!(while_read, Ok(Err(ErrorKind::LockContention)));
    let while_written = write_buffer(&store, &|_bytes: &mut [u8; CAPACITY]| {
        Ok(_encode(&store, &encode_real))
    });
    assert_eq!(while_written, Ok(Err(ErrorKind::LockContention)));
}

#[test]
fn the_buffer_address_is_stable_and_not_null() {
    let store = Store::new();
    let first = _offset(&store).unwrap();
    assert_ne!(first, 0);
    assert_eq!(_encode(&store, &encode_real), Ok(2));
    assert_eq!(_offset(&store), Ok(first));
}

#[test]
fn the_buffer_address_while_written_is_lock_contention() {
    let store = Store::new();
    let r = write_buffer(&store, &|_bytes: &mut [u8; CAPACITY]| Ok(_offset(&store)));
    assert_eq!(r, Ok(Err(ErrorKind::LockContention)));
    let shared = read_buffer(&store, &|_bytes: &[u8; CAPACITY]| Ok(_offset(&store).is_ok()));
    assert_eq!(shared, Ok(true));
}

#[test]
fn buffer_reads_and_writes_contend() {
    let store = Store::new();
    let r = write_buffer(&store, &|_bytes: &mut [u8; CAPACITY]| {
        Ok(read_buffer(&store, &|b: &[u8; CAPACITY]| Ok(b[0])))
    });
    assert_eq!(r, Ok(Err(ErrorKind::LockContention)));
    let w = read_buffer(&store, &|_bytes: &[u8; CAPACITY]| {
        Ok(write_buffer(&store, &|b: &mut [u8; CAPACITY]| {
            b[0] = 1;
            Ok(())
        }))
    });
    assert_eq!(w, Ok(Err(ErrorKind::LockContention)));
    assert_eq!(valid_bytes(&store, 1), vec![0]);
}

#[test]
fn apply_read_answers_contention_without_a_value() {
    let r = apply_read(None, &|v: &FlatValue| v.integer_value());
    assert_eq!(r, Err(ErrorKind::LockContention));
    let s = apply_read(Some(FlatValue::Integer(6)), &|v: &FlatValue| v.integer_value());
    assert_eq!(s, Ok(6));
}

#[test]
fn apply_write_leaves_what_the_closure_left() {
    let mut slot = FlatValue::Integer(1);
    let ok = apply_write(
        &mut slot,
        &|s: &mut FlatValue, v: bool| {
            s.set_boolean(v);
            Ok(())
        },
        true,
    );
    assert_eq!(ok, Ok(()));
    assert_eq!(slot, FlatValue::Boolean(true));
    let failed = apply_write(
        &mut slot,
        &|s: &mut FlatValue, v: i64| {
            s.set_integer(v);
            Err(ErrorKind::ClockError)
        },
        4,
    );
    assert_eq!(failed, Err(ErrorKind::ClockError));
    assert_eq!(slot, FlatValue::Integer(4));
    let unwritten = apply_write(&mut slot, &|_s: &mut FlatValue, _v: ()| Err(ErrorKind::EncodingError), ());
    assert_eq!(unwritten, Err(ErrorKind::EncodingError));
    assert_eq!(slot, FlatValue::Integer(4));
}

#[test]
fn the_initial_contents_are_unspecified_and_zeros() {
    assert_eq!(initial_value(), FlatValue::Unspecified);
    assert_eq!(initial_buffer(), [0u8; CAPACITY]);
}

#[test]
fn a_refused_lock_is_lock_contention() {
    assert_eq!(held_or_contended(Some(4096usize)), Ok(4096));
    assert_eq!(held_or_contended::<usize>(None), Err(ErrorKind::LockContention));
}

#[test]
fn a_refused_write_does_not_ask_the_closure() {
    let asked = Cell::new(0u32);
    let r = write_held(
        None,
        &|slot: &mut FlatValue, v: i64| {
            asked.set(asked.get() + 1);
            slot.set_integer(v);
            Ok(())
        },
        1,
    );
    assert_eq!(r, Err(ErrorKind::LockContention));
    assert_eq!(asked.get(), 0);
}

#[test]
fn a_granted_write_asks_the_closure_once() {
    let asked = Cell::new(0u32);
    let mut slot = FlatValue::Unspecified;
    let r = write_held(
        Some(&mut slot),
        &|s: &mut FlatValue, v: i64| {
            asked.set(asked.get() + 1);
            s.set_integer(v);
            Ok(())
        },
        12,
    );
    assert_eq!(r, Ok(()));
    assert_eq!(asked.get(), 1);
    assert_eq!(slot, FlatValue::Integer(12));
}

#[test]
fn a_contended_write_does_not_ask_the_closure() {
    let store = Store::new();
    let asked = Cell::new(0u32);
    let r = try_read(&store, &|_seen: &FlatValue| {
        Ok(try_write(
            &store,
            &|slot: &mut FlatValue, v: i64| {
                asked.set(asked.get() + 1);
                slot.set_integer(v);
                Ok(())
            },
            7,
        ))
    });
    assert_eq!(r, Ok(Err(ErrorKind::LockContention)));
    assert_eq!(asked.get(), 0);
    assert_eq!(try_read(&store, &|v: &FlatValue| Ok(*v)), Ok(FlatValue::Unspecified));
}
