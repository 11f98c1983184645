//! The codec for the 16-byte identifier type.
//!
//! The identifier's canonical form writes its 128-bit value big-endian,
//! most significant byte first. The wire format wants little-endian bytes,
//! so encoding reverses the canonical form before appending it, and
//! decoding reverses the 16 bytes it reads back into canonical order.

use crate::deserializable::Deserializable;
use crate::error::Error;
use crate::le_bytes::le_append;
use crate::le_bytes::le_read;
use crate::le_bytes::le_seq;
use crate::le_bytes::le_val;
use crate::le_bytes::lemma_le_round_trip;
use crate::le_bytes::lemma_le_seq_le_val;
use crate::le_bytes::lemma_le_seq_len;
use crate::le_bytes::lemma_le_val_bound;
use crate::le_bytes::lemma_pow256_values;
use crate::serializable::Serializable;
use crate::transmittable::Transmittable;
use vstd::prelude::*;

verus! {

/// A 16-byte identifier, held as the 128-bit value its canonical
/// big-endian byte form stands for.
#[derive(Debug, Clone, Copy, PartialEq, Eq, Structural)]
pub struct Uuid {
    pub value: u128,
}

impl Uuid {
    /// The canonical 16 bytes: the identifier's value written big-endian.
    pub open spec fn spec_bytes(&self) -> Seq<u8> {
        le_seq(self.value as nat, 16).reverse()
    }

    /// Builds the identifier whose canonical byte form is `bytes`.
    pub fn from_bytes(bytes: [u8; 16]) -> (r: Uuid)
        ensures
            r.spec_bytes() == bytes@,
    {
        let mut w: Vec<u8> = Vec::new();
        let mut i: usize = 0;
        while i < 16
            invariant
                i <= 16,
                w@.len() == i,
                forall|j: int| 0 <= j < i ==> w@[j] == bytes@[15 - j],
            decreases 16 - i,
        {
            w.push(*vstd::array::array_index_get(&bytes, 15 - i));
            i += 1;
        }
        proof {
            assert(w@ =~= bytes@.reverse());
        }
        let value = le_read(w.as_slice(), 16);
        proof {
            assert(w@.take(16) =~= bytes@.reverse());
            lemma_le_seq_le_val(bytes@.reverse());
            assert(le_seq(value as nat, 16).reverse() =~= bytes@);
        }
        Uuid { value }
    }

    /// The canonical 16 bytes, most significant byte first.
    pub fn as_bytes(&self) -> (r: [u8; 16])
        ensures
            r@ == self.spec_bytes(),
    {
        let w = le_append(self.value, 16, Vec::new());
        proof {
            lemma_le_seq_len(self.value as nat, 16);
        }
        let mut r: [u8; 16] = [0; 16];
        let mut j: usize = 0;
        while j < 16
            invariant
                j <= 16,
                w@ == le_seq(self.value as nat, 16),
                w@.len() == 16,
                forall|k: int| 0 <= k < j ==> r@[k] == w@[15 - k],
            decreases 16 - j,
        {
            r[j] = w[15 - j];
            j += 1;
        }
        proof {
            assert(r@ =~= self.spec_bytes());
        }
        r
    }
}

impl Serializable for Uuid {
    open spec fn wire_form(&self) -> Seq<u8> {
        le_seq(self.value as nat, 16)
    }

    fn serialize_append(&self, v: Vec<u8>) -> (r: Result<Vec<u8>, Error>) {
        Ok(le_append(self.value, 16, v))
    }
}

impl Deserializable for Uuid {
    open spec fn spec_deserialize(data: Seq<u8>) -> Result<(Uuid, nat), Error> {
        if data.len() >= 16 {
            Ok((Uuid { value: le_val(data.take(16)) as u128 }, 16nat))
        } else {
            Err(Error::InsufficientInput { required: 16, actual: data.len() as usize })
        }
    }

    fn deserialize(data: &[u8]) -> (r: Result<(Self, usize), Error>) {
        if data.len() >= 16 {
            let value = le_read(data, 16);
            proof {
                lemma_le_val_bound(data@.take(16));
                lemma_pow256_values();
            }
            Ok((Uuid { value }, 16))
        } else {
            Err(Error::InsufficientInput { required: 16, actual: data.len() })
        }
    }
}

impl Transmittable for Uuid {
    proof fn lemma_wire_round_trip(&self, rest: Seq<u8>) {
        lemma_pow256_values();
        lemma_le_round_trip(self.value as nat, 16, rest);
    }
}

/// The byte-order quirk, stated once: what goes to the wire for an
/// identifier is exactly its canonical byte form reversed.
pub proof fn lemma_uuid_wire_reverses_bytes(u: Uuid)
    ensures
        u.wire_form() == u.spec_bytes().reverse(),
{
    assert(u.spec_bytes().reverse() =~= u.wire_form());
}

} // verus!
