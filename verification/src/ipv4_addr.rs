//! The codec for a 4-octet network address.
//!
//! An address goes to the wire as its four octets in the order they are
//! written, most significant part of the address first: the wire format
//! keeps network order here instead of reinterpreting the address as a
//! little-endian number.

use crate::deserializable::Deserializable;
use crate::error::Error;
use crate::serializable::Serializable;
use crate::transmittable::Transmittable;
use vstd::prelude::*;

verus! {

/// A 4-octet network address, held as its octets in the order they are
/// written: `1.2.3.4` has `o0 == 1` and `o3 == 4`.
#[derive(Debug, Clone, Copy, PartialEq, Eq, Structural)]
pub struct Ipv4Addr {
    pub o0: u8,
    pub o1: u8,
    pub o2: u8,
    pub o3: u8,
}

impl Ipv4Addr {
    /// The octets in written order, as a byte string.
    pub open spec fn spec_octets(&self) -> Seq<u8> {
        seq![self.o0, self.o1, self.o2, self.o3]
    }

    /// Builds the address `a.b.c.d`.
    pub fn new(a: u8, b: u8, c: u8, d: u8) -> (r: Ipv4Addr)
        ensures
            r.spec_octets() == seq![a, b, c, d],
    {
        Ipv4Addr { o0: a, o1: b, o2: c, o3: d }
    }

    /// The octets in written order.
    pub fn octets(&self) -> (r: [u8; 4])
        ensures
            r@ == self.spec_octets(),
    {
        let r: [u8; 4] = [self.o0, self.o1, self.o2, self.o3];
        proof {
            assert(r@ =~= self.spec_octets());
        }
        r
    }
}

impl Serializable for Ipv4Addr {
    open spec fn wire_form(&self) -> Seq<u8> {
        self.spec_octets()
    }

    fn serialize_append(&self, v: Vec<u8>) -> (r: Result<Vec<u8>, Error>) {
        let mut v2 = v;
        v2.push(self.o0);
        v2.push(self.o1);
        v2.push(self.o2);
        v2.push(self.o3);
        proof {
            assert(v2@ =~= v@ + self.wire_form());
        }
        Ok(v2)
    }
}

impl Deserializable for Ipv4Addr {
    open spec fn spec_deserialize(data: Seq<u8>) -> Result<(Ipv4Addr, nat), Error> {
        if data.len() >= 4 {
            Ok((Ipv4Addr { o0: data[0], o1: data[1], o2: data[2], o3: data[3] }, 4nat))
        } else {
            Err(Error::InsufficientInput { required: 4, actual: data.len() as usize })
        }
    }

    fn deserialize(data: &[u8]) -> (r: Result<(Self, usize), Error>) {
        if data.len() >= 4 {
            let o0 = *vstd::slice::slice_index_get(data, 0);
            let o1 = *vstd::slice::slice_index_get(data, 1);
            let o2 = *vstd::slice::slice_index_get(data, 2);
            let o3 = *vstd::slice::slice_index_get(data, 3);
            Ok((Ipv4Addr { o0, o1, o2, o3 }, 4))
        } else {
            Err(Error::InsufficientInput { required: 4, actual: data.len() })
        }
    }
}

impl Transmittable for Ipv4Addr {
    proof fn lemma_wire_round_trip(&self, rest: Seq<u8>) {
        let s = self.wire_form() + rest;
        assert(s[0] == self.o0 && s[1] == self.o1 && s[2] == self.o2 && s[3] == self.o3);
    }
}

} // verus!
