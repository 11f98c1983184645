//! Codecs for composite (record) types.
//!
//! A record's wire shape is the concatenation of its fields' wire shapes
//! in declaration order — no padding, tag or length prefix anywhere. Every
//! record codec follows one fixed scheme, written out here for each of the
//! structural shapes a record can take: named fields ([`Pair`]), positional
//! fields ([`PairFlipped`]), no fields at all ([`Marker`]), and named
//! fields behind generic placeholders ([`Triple`]).
//!
//! The scheme: encoding calls each field's `serialize_append` in
//! declaration order against one threaded buffer; decoding calls each
//! field's `deserialize` against the input's remaining suffix, adds up the
//! consumed lengths, and rebuilds the record; the first failing field
//! aborts the whole record and its error is handed on unchanged. A generic
//! placeholder used as a field type carries the full codec bound, so a
//! record can only be instantiated at types that are themselves codecs.

use crate::deserializable::Deserializable;
use crate::error::Error;
use crate::ipv4_addr::Ipv4Addr;
use crate::serializable::Serializable;
use crate::transmittable::Transmittable;
use vstd::prelude::*;

verus! {

/// A named-field record: an unsigned 32-bit word followed by an address.
#[derive(Debug, Clone, Copy, PartialEq, Eq, Structural)]
pub struct Pair {
    pub a: u32,
    pub b: Ipv4Addr,
}

impl Serializable for Pair {
    open spec fn wire_form(&self) -> Seq<u8> {
        self.a.wire_form() + self.b.wire_form()
    }

    fn serialize_append(&self, v: Vec<u8>) -> (r: Result<Vec<u8>, Error>) {
        let v0 = v;
        let ghost v_in = v0@;
        let v1 = match self.a.serialize_append(v0) {
            Ok(v1) => v1,
            Err(e) => return Err(e),
        };
        let v2 = match self.b.serialize_append(v1) {
            Ok(v2) => v2,
            Err(e) => return Err(e),
        };
        proof {
            assert(v2@ =~= v_in + self.wire_form());
        }
        Ok(v2)
    }
}

impl Deserializable for Pair {
    open spec fn spec_deserialize(data: Seq<u8>) -> Result<(Pair, nat), Error> {
        match u32::spec_deserialize(data) {
            Ok((a, n1)) => match Ipv4Addr::spec_deserialize(data.skip(n1 as int)) {
                Ok((b, n2)) => Ok((Pair { a, b }, n1 + n2)),
                Err(e) => Err(e),
            },
            Err(e) => Err(e),
        }
    }

    fn deserialize(data: &[u8]) -> (r: Result<(Self, usize), Error>) {
        let (a, n1) = match u32::deserialize(data) {
            Ok(t) => t,
            Err(e) => return Err(e),
        };
        let rest1 = vstd::slice::slice_subrange(data, n1, data.len());
        proof {
            assert(rest1@ =~= data@.skip(n1 as int));
        }
        let (b, n2) = match Ipv4Addr::deserialize(rest1) {
            Ok(t) => t,
            Err(e) => return Err(e),
        };
        Ok((Pair { a, b }, n1 + n2))
    }
}

impl Transmittable for Pair {
    proof fn lemma_wire_round_trip(&self, rest: Seq<u8>) {
        let wa = self.a.wire_form();
        let wb = self.b.wire_form();
        let s = self.wire_form() + rest;
        assert(s =~= wa + (wb + rest));
        self.a.lemma_wire_round_trip(wb + rest);
        assert(s.skip(wa.len() as int) =~= wb + rest);
        self.b.lemma_wire_round_trip(rest);
    }
}

/// A positional-field record holding the same two fields as [`Pair`] in
/// the opposite declaration order. Its wire shape differs accordingly:
/// field order is the sole framing, so swapping fields swaps the bytes.
#[derive(Debug, Clone, Copy, PartialEq, Eq, Structural)]
pub struct PairFlipped(pub Ipv4Addr, pub u32);

impl Serializable for PairFlipped {
    open spec fn wire_form(&self) -> Seq<u8> {
        self.0.wire_form() + self.1.wire_form()
    }

    fn serialize_append(&self, v: Vec<u8>) -> (r: Result<Vec<u8>, Error>) {
        let v0 = v;
        let ghost v_in = v0@;
        let v1 = match self.0.serialize_append(v0) {
            Ok(v1) => v1,
            Err(e) => return Err(e),
        };
        let v2 = match self.1.serialize_append(v1) {
            Ok(v2) => v2,
            Err(e) => return Err(e),
        };
        proof {
            assert(v2@ =~= v_in + self.wire_form());
        }
        Ok(v2)
    }
}

impl Deserializable for PairFlipped {
    open spec fn spec_deserialize(data: Seq<u8>) -> Result<(PairFlipped, nat), Error> {
        match Ipv4Addr::spec_deserialize(data) {
            Ok((f0, n1)) => match u32::spec_deserialize(data.skip(n1 as int)) {
                Ok((f1, n2)) => Ok((PairFlipped(f0, f1), n1 + n2)),
                Err(e) => Err(e),
            },
            Err(e) => Err(e),
        }
    }

    fn deserialize(data: &[u8]) -> (r: Result<(Self, usize), Error>) {
        let (f0, n1) = match Ipv4Addr::deserialize(data) {
            Ok(t) => t,
            Err(e) => return Err(e),
        };
        let rest1 = vstd::slice::slice_subrange(data, n1, data.len());
        proof {
            assert(rest1@ =~= data@.skip(n1 as int));
        }
        let (f1, n2) = match u32::deserialize(rest1) {
            Ok(t) => t,
            Err(e) => return Err(e),
        };
        Ok((PairFlipped(f0, f1), n1 + n2))
    }
}

impl Transmittable for PairFlipped {
    proof fn lemma_wire_round_trip(&self, rest: Seq<u8>) {
        let w0 = self.0.wire_form();
        let w1 = self.1.wire_form();
        let s = self.wire_form() + rest;
        assert(s =~= w0 + (w1 + rest));
        self.0.lemma_wire_round_trip(w1 + rest);
        assert(s.skip(w0.len() as int) =~= w1 + rest);
        self.1.lemma_wire_round_trip(rest);
    }
}

/// A record with no fields at all. Its wire shape is empty: encoding
/// appends nothing and decoding consumes nothing.
#[derive(Debug, Clone, Copy, PartialEq, Eq, Structural)]
pub struct Marker;

impl Serializable for Marker {
    open spec fn wire_form(&self) -> Seq<u8> {
        Seq::empty()
    }

    fn serialize_append(&self, v: Vec<u8>) -> (r: Result<Vec<u8>, Error>) {
        proof {
            assert(v@ + self.wire_form() =~= v@);
        }
        Ok(v)
    }
}

impl Deserializable for Marker {
    open spec fn spec_deserialize(data: Seq<u8>) -> Result<(Marker, nat), Error> {
        Ok((Marker, 0nat))
    }

    fn deserialize(data: &[u8]) -> (r: Result<(Self, usize), Error>) {
        Ok((Marker, 0))
    }
}

impl Transmittable for Marker {
    proof fn lemma_wire_round_trip(&self, rest: Seq<u8>) {
    }
}

/// A named-field record over two generic placeholders: a value of `T`,
/// then a value of `U`, then an address. It is a codec exactly when both
/// placeholders are bound to codecs — the bound every impl below carries —
/// so instantiating it at a type without the codec contract is rejected
/// before any encode or decode call exists.
#[derive(Debug, Clone, Copy, PartialEq, Eq, Structural)]
pub struct Triple<T, U> {
    pub a: T,
    pub b: U,
    pub c: Ipv4Addr,
}

impl<T: Transmittable, U: Transmittable> Serializable for Triple<T, U> {
    open spec fn wire_form(&self) -> Seq<u8> {
        self.a.wire_form() + self.b.wire_form() + self.c.wire_form()
    }

    fn serialize_append(&self, v: Vec<u8>) -> (r: Result<Vec<u8>, Error>) {
        let v0 = v;
        let ghost v_in = v0@;
        let v1 = match self.a.serialize_append(v0) {
            Ok(v1) => v1,
            Err(e) => return Err(e),
        };
        let v2 = match self.b.serialize_append(v1) {
            Ok(v2) => v2,
            Err(e) => return Err(e),
        };
        let v3 = match self.c.serialize_append(v2) {
            Ok(v3) => v3,
            Err(e) => return Err(e),
        };
        proof {
            assert(v3@ =~= v_in + self.wire_form());
        }
        Ok(v3)
    }
}

impl<T: Transmittable, U: Transmittable> Deserializable for Triple<T, U> {
    open spec fn spec_deserialize(data: Seq<u8>) -> Result<(Triple<T, U>, nat), Error> {
        match T::spec_deserialize(data) {
            Ok((a, n1)) => match U::spec_deserialize(data.skip(n1 as int)) {
                Ok((b, n2)) => match Ipv4Addr::spec_deserialize(data.skip(n1 + n2 as int)) {
                    Ok((c, n3)) => Ok((Triple { a, b, c }, n1 + n2 + n3)),
                    Err(e) => Err(e),
                },
                Err(e) => Err(e),
            },
            Err(e) => Err(e),
        }
    }

    fn deserialize(data: &[u8]) -> (r: Result<(Self, usize), Error>) {
        let (a, n1) = match T::deserialize(data) {
            Ok(t) => t,
            Err(e) => return Err(e),
        };
        let rest1 = vstd::slice::slice_subrange(data, n1, data.len());
        proof {
            assert(rest1@ =~= data@.skip(n1 as int));
        }
        let (b, n2) = match U::deserialize(rest1) {
            Ok(t) => t,
            Err(e) => return Err(e),
        };
        let rest2 = vstd::slice::slice_subrange(rest1, n2, rest1.len());
        proof {
            assert(rest2@ =~= data@.skip(n1 + n2));
        }
        let (c, n3) = match Ipv4Addr::deserialize(rest2) {
            Ok(t) => t,
            Err(e) => return Err(e),
        };
        Ok((Triple { a, b, c }, n1 + n2 + n3))
    }
}

impl<T: Transmittable, U: Transmittable> Transmittable for Triple<T, U> {
    proof fn lemma_wire_round_trip(&self, rest: Seq<u8>) {
        let wa = self.a.wire_form();
        let wb = self.b.wire_form();
        let wc = self.c.wire_form();
        let s = self.wire_form() + rest;
        assert(s =~= wa + (wb + wc + rest));
        self.a.lemma_wire_round_trip(wb + wc + rest);
        assert(s.skip(wa.len() as int) =~= wb + (wc + rest));
        self.b.lemma_wire_round_trip(wc + rest);
        assert(s.skip(wa.len() + wb.len() as int) =~= wc + rest);
        self.c.lemma_wire_round_trip(rest);
    }
}

} // verus!
