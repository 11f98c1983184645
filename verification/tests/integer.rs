use gnutella::Deserializable;
use gnutella::Error;
use gnutella::Serializable;

#[test]
fn test_integer_little_endian() {
    // The 32-bit value 4 goes to the wire least significant byte first.
    assert_eq!(4u32.serialize().unwrap(), [4, 0, 0, 0]);

    let (value, consumed) = <u32 as Deserializable>::deserialize(&[4, 0, 0, 0]).unwrap();
    assert_eq!(value, 4);
    assert_eq!(consumed, 4);

    assert_eq!(0x0102_0304u32.serialize().unwrap(), [4, 3, 2, 1]);
    assert_eq!(0x0102u16.serialize().unwrap(), [2, 1]);
    assert_eq!(
        0x0102_0304_0506_0708u64.serialize().unwrap(),
        [8, 7, 6, 5, 4, 3, 2, 1]
    );
}

#[test]
fn test_integer_exact_width() {
    // Every fixed-width integer encodes to exactly its width, whatever
    // the value: zero, the minimum and the maximum included.
    for x in [0u8, u8::MIN, u8::MAX] {
        assert_eq!(x.serialize().unwrap().len(), 1);
    }
    for x in [0i8, i8::MIN, i8::MAX] {
        assert_eq!(x.serialize().unwrap().len(), 1);
    }
    for x in [0u16, u16::MIN, u16::MAX] {
        assert_eq!(x.serialize().unwrap().len(), 2);
    }
    for x in [0i16, i16::MIN, i16::MAX] {
        assert_eq!(x.serialize().unwrap().len(), 2);
    }
    for x in [0u32, u32::MIN, u32::MAX] {
        assert_eq!(x.serialize().unwrap().len(), 4);
    }
    for x in [0i32, i32::MIN, i32::MAX] {
        assert_eq!(x.serialize().unwrap().len(), 4);
    }
    for x in [0u64, u64::MIN, u64::MAX] {
        assert_eq!(x.serialize().unwrap().len(), 8);
    }
    for x in [0i64, i64::MIN, i64::MAX] {
        assert_eq!(x.serialize().unwrap().len(), 8);
    }
    for x in [0u128, u128::MIN, u128::MAX] {
        assert_eq!(x.serialize().unwrap().len(), 16);
    }
    for x in [0i128, i128::MIN, i128::MAX] {
        assert_eq!(x.serialize().unwrap().len(), 16);
    }
}

#[test]
fn test_signed_round_trip() {
    assert_eq!((-1i32).serialize().unwrap(), [0xff, 0xff, 0xff, 0xff]);

    let (value, consumed) = <i32 as Deserializable>::deserialize(&[0xff, 0xff, 0xff, 0xff]).unwrap();
    assert_eq!(value, -1);
    assert_eq!(consumed, 4);

    for x in [i8::MIN, -1i8, 0i8, 1i8, i8::MAX] {
        let bytes = x.serialize().unwrap();
        assert_eq!(<i8 as Deserializable>::deserialize(&bytes).unwrap(), (x, 1));
    }
    for x in [i16::MIN, -2i16, 0i16, 2i16, i16::MAX] {
        let bytes = x.serialize().unwrap();
        assert_eq!(<i16 as Deserializable>::deserialize(&bytes).unwrap(), (x, 2));
    }
    for x in [i64::MIN, -3i64, 0i64, 3i64, i64::MAX] {
        let bytes = x.serialize().unwrap();
        assert_eq!(<i64 as Deserializable>::deserialize(&bytes).unwrap(), (x, 8));
    }
    for x in [i128::MIN, -4i128, 0i128, 4i128, i128::MAX] {
        let bytes = x.serialize().unwrap();
        assert_eq!(<i128 as Deserializable>::deserialize(&bytes).unwrap(), (x, 16));
    }
}

#[test]
fn test_unsigned_round_trip() {
    for x in [u8::MIN, 1u8, u8::MAX] {
        let bytes = x.serialize().unwrap();
        assert_eq!(<u8 as Deserializable>::deserialize(&bytes).unwrap(), (x, 1));
    }
    for x in [u16::MIN, 0x1234u16, u16::MAX] {
        let bytes = x.serialize().unwrap();
        assert_eq!(<u16 as Deserializable>::deserialize(&bytes).unwrap(), (x, 2));
    }
    for x in [u32::MIN, 0xdead_beefu32, u32::MAX] {
        let bytes = x.serialize().unwrap();
        assert_eq!(<u32 as Deserializable>::deserialize(&bytes).unwrap(), (x, 4));
    }
    for x in [u64::MIN, 0x0123_4567_89ab_cdefu64, u64::MAX] {
        let bytes = x.serialize().unwrap();
        assert_eq!(<u64 as Deserializable>::deserialize(&bytes).unwrap(), (x, 8));
    }
    for x in [u128::MIN, 0x0123_4567_89ab_cdef_0123_4567_89ab_cdefu128, u128::MAX] {
        let bytes = x.serialize().unwrap();
        assert_eq!(<u128 as Deserializable>::deserialize(&bytes).unwrap(), (x, 16));
    }
}

#[test]
fn test_integer_insufficient_input() {
    // A 32-bit decode from a single byte is refused with the width it
    // needed and the length it found.
    match <u32 as Deserializable>::deserialize(&[7]) {
        Ok(_) => panic!("a 1-byte input must not decode as a 32-bit value"),
        Err(Error::InsufficientInput { required, actual }) => {
            assert_eq!(required, 4);
            assert_eq!(actual, 1);
        }
        Err(err) => panic!("unexpected error: {:?}", err),
    }

    // The identifier fails analogously below sixteen bytes.
    match <gnutella::Uuid as Deserializable>::deserialize(&[0; 15]) {
        Ok(_) => panic!("a 15-byte input must not decode as an identifier"),
        Err(Error::InsufficientInput { required, actual }) => {
            assert_eq!(required, 16);
            assert_eq!(actual, 15);
        }
        Err(err) => panic!("unexpected error: {:?}", err),
    }

    match <i64 as Deserializable>::deserialize(&[]) {
        Err(Error::InsufficientInput { required, actual }) => {
            assert_eq!(required, 8);
            assert_eq!(actual, 0);
        }
        _ => panic!("an empty input must be refused with a length error"),
    }
}

#[test]
fn test_integer_trailing_bytes() {
    // Bytes beyond the consumed length belong to the next field and are
    // left alone.
    let (value, consumed) = <u32 as Deserializable>::deserialize(&[4, 0, 0, 0, 99, 100]).unwrap();
    assert_eq!(value, 4);
    assert_eq!(consumed, 4);

    let (value, consumed) = <u8 as Deserializable>::deserialize(&[42, 1, 2, 3]).unwrap();
    assert_eq!(value, 42);
    assert_eq!(consumed, 1);

    let mut twenty = vec![0u8; 20];
    twenty[0] = 1;
    let (id, consumed) = <gnutella::Uuid as Deserializable>::deserialize(&twenty).unwrap();
    assert_eq!(consumed, 16);
    assert_eq!(
        id,
        gnutella::Uuid::from_bytes([0, 0, 0, 0, 0, 0, 0, 0, 0, 0, 0, 0, 0, 0, 0, 1])
    );
}
