use crate::deserializable::Deserializable;
use crate::error::Error;
use crate::serializable::Serializable;
use vstd::prelude::*;

verus! {

/// The full codec capability: a type that can be written to the wire and
/// read back.
///
/// Beyond combining the two one-sided contracts, implementing this trait
/// proves the round trip: the wire form of any value, however many bytes
/// follow it in the stream, decodes back to that very value, and the decode
/// consumes exactly the wire form's length.
pub trait Transmittable: Serializable + Deserializable {
    /// Round trip: decoding a stream that starts with the wire form of
    /// `self` succeeds, yields `self` again, and consumes exactly the bytes
    /// of that wire form, leaving `rest` untouched.
    proof fn lemma_wire_round_trip(&self, rest: Seq<u8>)
        ensures
            Self::spec_deserialize(self.wire_form() + rest) == Ok::<(Self, nat), Error>(
                (*self, self.wire_form().len()),
            ),
    ;
}

} // verus!
