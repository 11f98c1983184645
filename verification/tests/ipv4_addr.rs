use gnutella::Deserializable;
use gnutella::Ipv4Addr;
use gnutella::Serializable;

#[test]
fn test_ipv4_addr_transmittable() {
    let x = Ipv4Addr::new(32, 43, 11, 234);

    let x_serialized = match x.serialize() {
        Ok(bytes) => bytes,
        Err(err) => panic!("{:?}", err),
    };

    let x_deserialized = match <Ipv4Addr as Deserializable>::deserialize(&x_serialized) {
        Ok((x, bytes_parsed)) => {
            assert_eq!(bytes_parsed, 4);
            x
        }
        Err(err) => panic!("{:?}", err),
    };

    assert_eq!(x_deserialized, x);
}

#[test]
fn test_ipv4_addr_octet_order() {
    // The address goes to the wire as its four octets in written order,
    // not byte-swapped.
    let addr = Ipv4Addr::new(1, 2, 3, 4);
    let bytes = addr.serialize().unwrap();
    assert_eq!(bytes, [1, 2, 3, 4]);
    assert_eq!(addr.octets(), [1, 2, 3, 4]);

    let (back, consumed) = <Ipv4Addr as Deserializable>::deserialize(&[1, 2, 3, 4]).unwrap();
    assert_eq!(back, Ipv4Addr::new(1, 2, 3, 4));
    assert_eq!(consumed, 4);
}

#[test]
fn test_ipv4_addr_insufficient_input() {
    match <Ipv4Addr as Deserializable>::deserialize(&[1, 2, 3]) {
        Ok(_) => panic!("a 3-byte input must not decode as an address"),
        Err(gnutella::Error::InsufficientInput { required, actual }) => {
            assert_eq!(required, 4);
            assert_eq!(actual, 3);
        }
        Err(err) => panic!("unexpected error: {:?}", err),
    }
}
