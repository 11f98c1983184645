use gnutella::Deserializable;
use gnutella::Error;
use gnutella::Ipv4Addr;
use gnutella::Marker;
use gnutella::Pair;
use gnutella::PairFlipped;
use gnutella::Serializable;
use gnutella::Triple;
use gnutella::Uuid;

#[test]
fn test_pair_concatenation() {
    // A record is the concatenation of its fields' encodings in
    // declaration order: the 32-bit word first, then the address.
    let pair = Pair {
        a: 4,
        b: Ipv4Addr::new(1, 2, 3, 4),
    };

    let bytes = pair.serialize().unwrap();
    assert_eq!(bytes, [4, 0, 0, 0, 1, 2, 3, 4]);

    let (back, consumed) = <Pair as Deserializable>::deserialize(&bytes).unwrap();
    assert_eq!(consumed, 8);
    assert_eq!(back, pair);
}

#[test]
fn test_field_order_is_significant() {
    // The same two field values in the opposite declaration order give a
    // different byte layout: field order is the only framing there is.
    let flipped = PairFlipped(Ipv4Addr::new(1, 2, 3, 4), 4);

    let bytes = flipped.serialize().unwrap();
    assert_eq!(bytes, [1, 2, 3, 4, 4, 0, 0, 0]);

    let pair_bytes = Pair {
        a: 4,
        b: Ipv4Addr::new(1, 2, 3, 4),
    }
    .serialize()
    .unwrap();
    assert_ne!(bytes, pair_bytes);

    let (back, consumed) = <PairFlipped as Deserializable>::deserialize(&bytes).unwrap();
    assert_eq!(consumed, 8);
    assert_eq!(back, flipped);
}

#[test]
fn test_marker_record() {
    // A record with no fields encodes to nothing and decodes from
    // anything, consuming nothing.
    assert_eq!(Marker.serialize().unwrap(), Vec::<u8>::new());

    let (back, consumed) = <Marker as Deserializable>::deserialize(&[]).unwrap();
    assert_eq!(back, Marker);
    assert_eq!(consumed, 0);

    let (back, consumed) = <Marker as Deserializable>::deserialize(&[9, 9, 9]).unwrap();
    assert_eq!(back, Marker);
    assert_eq!(consumed, 0);
}

#[test]
fn test_generic_triple_round_trip() {
    // A generic record instantiated at codec types is itself a codec:
    // an identifier, a 32-bit word, then an address.
    let triple: Triple<Uuid, u32> = Triple {
        a: Uuid::from_bytes([1, 2, 3, 4, 5, 6, 7, 8, 9, 10, 11, 12, 13, 14, 15, 16]),
        b: 6,
        c: Ipv4Addr::new(1, 2, 3, 4),
    };

    let bytes = triple.serialize().unwrap();
    assert_eq!(bytes.len(), 16 + 4 + 4);
    // Identifier bytes reversed, then the word little-endian, then the
    // octets as written.
    assert_eq!(
        bytes,
        [16, 15, 14, 13, 12, 11, 10, 9, 8, 7, 6, 5, 4, 3, 2, 1, 6, 0, 0, 0, 1, 2, 3, 4]
    );

    let (back, consumed) = <Triple<Uuid, u32> as Deserializable>::deserialize(&bytes).unwrap();
    assert_eq!(consumed, 24);
    assert_eq!(back, triple);
}

#[test]
fn test_nested_record_round_trip() {
    // Records nest: a record may itself stand as a field of another.
    let nested: Triple<Pair, i16> = Triple {
        a: Pair {
            a: 0xfeed_f00d,
            b: Ipv4Addr::new(10, 0, 0, 1),
        },
        b: -2,
        c: Ipv4Addr::new(192, 168, 0, 7),
    };

    let bytes = nested.serialize().unwrap();
    assert_eq!(bytes.len(), 8 + 2 + 4);

    let (back, consumed) = <Triple<Pair, i16> as Deserializable>::deserialize(&bytes).unwrap();
    assert_eq!(consumed, 14);
    assert_eq!(back, nested);
}

#[test]
fn test_record_error_is_failing_fields_error() {
    // A record's decode error is exactly the first failing field's error,
    // unwrapped: here the address field, four bytes short of its width.
    let input = [4, 0, 0, 0]; // enough for the word, nothing for the address
    match <Pair as Deserializable>::deserialize(&input) {
        Ok(_) => panic!("an 8-byte record must not decode from 4 bytes"),
        Err(Error::InsufficientInput { required, actual }) => {
            assert_eq!(required, 4);
            assert_eq!(actual, 0);
        }
        Err(err) => panic!("unexpected error: {:?}", err),
    }
}

#[test]
fn test_record_trailing_bytes() {
    let pair = Pair {
        a: 7,
        b: Ipv4Addr::new(9, 8, 7, 6),
    };
    let mut bytes = pair.serialize().unwrap();
    bytes.extend_from_slice(&[0xaa, 0xbb, 0xcc]);

    let (back, consumed) = <Pair as Deserializable>::deserialize(&bytes).unwrap();
    assert_eq!(consumed, 8);
    assert_eq!(back, pair);
}

#[test]
fn test_serialize_append_keeps_existing_bytes() {
    // Encoding appends: what is already in the buffer stays, in order.
    let prefix = vec![0xde, 0xad];
    let out = 4u32.serialize_append(prefix).unwrap();
    assert_eq!(out, [0xde, 0xad, 4, 0, 0, 0]);

    let out = Ipv4Addr::new(1, 2, 3, 4).serialize_append(out).unwrap();
    assert_eq!(out, [0xde, 0xad, 4, 0, 0, 0, 1, 2, 3, 4]);
}
