//! Codecs for the fixed-width integer types.
//!
//! Every integer type goes to the wire as its raw bytes in little-endian
//! order, exactly as many bytes as the type is wide; the wire format asks
//! for little-endian everywhere unless a type says otherwise. Decoding
//! needs at least that many bytes of input and consumes exactly that many;
//! a shorter input is refused with the width the type needed and the
//! length that was found.

use crate::deserializable::Deserializable;
use crate::error::Error;
use crate::le_bytes::as_signed;
use crate::le_bytes::le_append;
use crate::le_bytes::le_read;
use crate::le_bytes::le_seq;
use crate::le_bytes::le_val;
use crate::le_bytes::lemma_le_round_trip;
use crate::le_bytes::lemma_le_val_bound;
use crate::le_bytes::lemma_pow256_values;
use crate::le_bytes::pow256;
use crate::le_bytes::to_unsigned;
use crate::serializable::Serializable;
use crate::transmittable::Transmittable;
use vstd::prelude::*;

verus! {

// Two's-complement bridges between each signed type and the unsigned type
// of the same width. Spec-mode `as` casts that leave the target's range are
// unspecified, so the branches stay inside it.
fn i8_to_u8(x: i8) -> (r: u8)
    ensures
        r as nat == to_unsigned(x as int, 1),
{
    proof {
        lemma_pow256_values();
    }
    if x >= 0 {
        x as u8
    } else {
        ((x as i16) + 0x100) as u8
    }
}

fn u8_to_i8(u: u8) -> (x: i8)
    ensures
        x as int == as_signed(u as nat, 1),
{
    proof {
        lemma_pow256_values();
    }
    if u < 0x80 {
        u as i8
    } else {
        ((u as i16) - 0x100) as i8
    }
}

fn i16_to_u16(x: i16) -> (r: u16)
    ensures
        r as nat == to_unsigned(x as int, 2),
{
    proof {
        lemma_pow256_values();
    }
    if x >= 0 {
        x as u16
    } else {
        ((x as i32) + 0x1_0000) as u16
    }
}

fn u16_to_i16(u: u16) -> (x: i16)
    ensures
        x as int == as_signed(u as nat, 2),
{
    proof {
        lemma_pow256_values();
    }
    if u < 0x8000 {
        u as i16
    } else {
        ((u as i32) - 0x1_0000) as i16
    }
}

fn i32_to_u32(x: i32) -> (r: u32)
    ensures
        r as nat == to_unsigned(x as int, 4),
{
    proof {
        lemma_pow256_values();
    }
    if x >= 0 {
        x as u32
    } else {
        ((x as i64) + 0x1_0000_0000) as u32
    }
}

fn u32_to_i32(u: u32) -> (x: i32)
    ensures
        x as int == as_signed(u as nat, 4),
{
    proof {
        lemma_pow256_values();
    }
    if u < 0x8000_0000 {
        u as i32
    } else {
        ((u as i64) - 0x1_0000_0000) as i32
    }
}

fn i64_to_u64(x: i64) -> (r: u64)
    ensures
        r as nat == to_unsigned(x as int, 8),
{
    proof {
        lemma_pow256_values();
    }
    if x >= 0 {
        x as u64
    } else {
        ((x as i128) + 0x1_0000_0000_0000_0000) as u64
    }
}

fn u64_to_i64(u: u64) -> (x: i64)
    ensures
        x as int == as_signed(u as nat, 8),
{
    proof {
        lemma_pow256_values();
    }
    if u < 0x8000_0000_0000_0000 {
        u as i64
    } else {
        ((u as i128) - 0x1_0000_0000_0000_0000) as i64
    }
}

fn i128_to_u128(x: i128) -> (r: u128)
    ensures
        r as nat == to_unsigned(x as int, 16),
{
    proof {
        lemma_pow256_values();
    }
    if x >= 0 {
        x as u128
    } else {
        let d: i128 = x - i128::MIN;
        (d as u128) + 0x8000_0000_0000_0000_0000_0000_0000_0000u128
    }
}

fn u128_to_i128(u: u128) -> (x: i128)
    ensures
        x as int == as_signed(u as nat, 16),
{
    proof {
        lemma_pow256_values();
    }
    if u < 0x8000_0000_0000_0000_0000_0000_0000_0000u128 {
        u as i128
    } else {
        let d: u128 = u - 0x8000_0000_0000_0000_0000_0000_0000_0000u128;
        (d as i128) + i128::MIN
    }
}

impl Serializable for u8 {
    open spec fn wire_form(&self) -> Seq<u8> {
        le_seq(*self as nat, 1)
    }

    fn serialize_append(&self, v: Vec<u8>) -> (r: Result<Vec<u8>, Error>) {
        Ok(le_append(*self as u128, 1, v))
    }
}

impl Deserializable for u8 {
    open spec fn spec_deserialize(data: Seq<u8>) -> Result<(u8, nat), Error> {
        if data.len() >= 1 {
            Ok((le_val(data.take(1)) as u8, 1nat))
        } else {
            Err(Error::InsufficientInput { required: 1, actual: data.len() as usize })
        }
    }

    fn deserialize(data: &[u8]) -> (r: Result<(Self, usize), Error>) {
        if data.len() >= 1 {
            let x = le_read(data, 1);
            proof {
                lemma_le_val_bound(data@.take(1));
                lemma_pow256_values();
            }
            Ok((x as u8, 1))
        } else {
            Err(Error::InsufficientInput { required: 1, actual: data.len() })
        }
    }
}

impl Transmittable for u8 {
    proof fn lemma_wire_round_trip(&self, rest: Seq<u8>) {
        lemma_pow256_values();
        lemma_le_round_trip(*self as nat, 1, rest);
    }
}

impl Serializable for i8 {
    open spec fn wire_form(&self) -> Seq<u8> {
        le_seq(to_unsigned(*self as int, 1), 1)
    }

    fn serialize_append(&self, v: Vec<u8>) -> (r: Result<Vec<u8>, Error>) {
        let ux = i8_to_u8(*self);
        Ok(le_append(ux as u128, 1, v))
    }
}

impl Deserializable for i8 {
    open spec fn spec_deserialize(data: Seq<u8>) -> Result<(i8, nat), Error> {
        if data.len() >= 1 {
            Ok((as_signed(le_val(data.take(1)), 1) as i8, 1nat))
        } else {
            Err(Error::InsufficientInput { required: 1, actual: data.len() as usize })
        }
    }

    fn deserialize(data: &[u8]) -> (r: Result<(Self, usize), Error>) {
        if data.len() >= 1 {
            let x = le_read(data, 1);
            proof {
                lemma_le_val_bound(data@.take(1));
                lemma_pow256_values();
            }
            Ok((u8_to_i8(x as u8), 1))
        } else {
            Err(Error::InsufficientInput { required: 1, actual: data.len() })
        }
    }
}

impl Transmittable for i8 {
    proof fn lemma_wire_round_trip(&self, rest: Seq<u8>) {
        lemma_pow256_values();
        lemma_le_round_trip(to_unsigned(*self as int, 1), 1, rest);
    }
}

impl Serializable for u16 {
    open spec fn wire_form(&self) -> Seq<u8> {
        le_seq(*self as nat, 2)
    }

    fn serialize_append(&self, v: Vec<u8>) -> (r: Result<Vec<u8>, Error>) {
        Ok(le_append(*self as u128, 2, v))
    }
}

impl Deserializable for u16 {
    open spec fn spec_deserialize(data: Seq<u8>) -> Result<(u16, nat), Error> {
        if data.len() >= 2 {
            Ok((le_val(data.take(2)) as u16, 2nat))
        } else {
            Err(Error::InsufficientInput { required: 2, actual: data.len() as usize })
        }
    }

    fn deserialize(data: &[u8]) -> (r: Result<(Self, usize), Error>) {
        if data.len() >= 2 {
            let x = le_read(data, 2);
            proof {
                lemma_le_val_bound(data@.take(2));
                lemma_pow256_values();
            }
            Ok((x as u16, 2))
        } else {
            Err(Error::InsufficientInput { required: 2, actual: data.len() })
        }
    }
}

impl Transmittable for u16 {
    proof fn lemma_wire_round_trip(&self, rest: Seq<u8>) {
        lemma_pow256_values();
        lemma_le_round_trip(*self as nat, 2, rest);
    }
}

impl Serializable for i16 {
    open spec fn wire_form(&self) -> Seq<u8> {
        le_seq(to_unsigned(*self as int, 2), 2)
    }

    fn serialize_append(&self, v: Vec<u8>) -> (r: Result<Vec<u8>, Error>) {
        let ux = i16_to_u16(*self);
        Ok(le_append(ux as u128, 2, v))
    }
}

impl Deserializable for i16 {
    open spec fn spec_deserialize(data: Seq<u8>) -> Result<(i16, nat), Error> {
        if data.len() >= 2 {
            Ok((as_signed(le_val(data.take(2)), 2) as i16, 2nat))
        } else {
            Err(Error::InsufficientInput { required: 2, actual: data.len() as usize })
        }
    }

    fn deserialize(data: &[u8]) -> (r: Result<(Self, usize), Error>) {
        if data.len() >= 2 {
            let x = le_read(data, 2);
            proof {
                lemma_le_val_bound(data@.take(2));
                lemma_pow256_values();
            }
            Ok((u16_to_i16(x as u16), 2))
        } else {
            Err(Error::InsufficientInput { required: 2, actual: data.len() })
        }
    }
}

impl Transmittable for i16 {
    proof fn lemma_wire_round_trip(&self, rest: Seq<u8>) {
        lemma_pow256_values();
        lemma_le_round_trip(to_unsigned(*self as int, 2), 2, rest);
    }
}

impl Serializable for u32 {
    open spec fn wire_form(&self) -> Seq<u8> {
        le_seq(*self as nat, 4)
    }

    fn serialize_append(&self, v: Vec<u8>) -> (r: Result<Vec<u8>, Error>) {
        Ok(le_append(*self as u128, 4, v))
    }
}

impl Deserializable for u32 {
    open spec fn spec_deserialize(data: Seq<u8>) -> Result<(u32, nat), Error> {
        if data.len() >= 4 {
            Ok((le_val(data.take(4)) as u32, 4nat))
        } else {
            Err(Error::InsufficientInput { required: 4, actual: data.len() as usize })
        }
    }

    fn deserialize(data: &[u8]) -> (r: Result<(Self, usize), Error>) {
        if data.len() >= 4 {
            let x = le_read(data, 4);
            proof {
                lemma_le_val_bound(data@.take(4));
                lemma_pow256_values();
            }
            Ok((x as u32, 4))
        } else {
            Err(Error::InsufficientInput { required: 4, actual: data.len() })
        }
    }
}

impl Transmittable for u32 {
    proof fn lemma_wire_round_trip(&self, rest: Seq<u8>) {
        lemma_pow256_values();
        lemma_le_round_trip(*self as nat, 4, rest);
    }
}

impl Serializable for i32 {
    open spec fn wire_form(&self) -> Seq<u8> {
        le_seq(to_unsigned(*self as int, 4), 4)
    }

    fn serialize_append(&self, v: Vec<u8>) -> (r: Result<Vec<u8>, Error>) {
        let ux = i32_to_u32(*self);
        Ok(le_append(ux as u128, 4, v))
    }
}

impl Deserializable for i32 {
    open spec fn spec_deserialize(data: Seq<u8>) -> Result<(i32, nat), Error> {
        if data.len() >= 4 {
            Ok((as_signed(le_val(data.take(4)), 4) as i32, 4nat))
        } else {
            Err(Error::InsufficientInput { required: 4, actual: data.len() as usize })
        }
    }

    fn deserialize(data: &[u8]) -> (r: Result<(Self, usize), Error>) {
        if data.len() >= 4 {
            let x = le_read(data, 4);
            proof {
                lemma_le_val_bound(data@.take(4));
                lemma_pow256_values();
            }
            Ok((u32_to_i32(x as u32), 4))
        } else {
            Err(Error::InsufficientInput { required: 4, actual: data.len() })
        }
    }
}

impl Transmittable for i32 {
    proof fn lemma_wire_round_trip(&self, rest: Seq<u8>) {
        lemma_pow256_values();
        lemma_le_round_trip(to_unsigned(*self as int, 4), 4, rest);
    }
}

impl Serializable for u64 {
    open spec fn wire_form(&self) -> Seq<u8> {
        le_seq(*self as nat, 8)
    }

    fn serialize_append(&self, v: Vec<u8>) -> (r: Result<Vec<u8>, Error>) {
        Ok(le_append(*self as u128, 8, v))
    }
}

impl Deserializable for u64 {
    open spec fn spec_deserialize(data: Seq<u8>) -> Result<(u64, nat), Error> {
        if data.len() >= 8 {
            Ok((le_val(data.take(8)) as u64, 8nat))
        } else {
            Err(Error::InsufficientInput { required: 8, actual: data.len() as usize })
        }
    }

    fn deserialize(data: &[u8]) -> (r: Result<(Self, usize), Error>) {
        if data.len() >= 8 {
            let x = le_read(data, 8);
            proof {
                lemma_le_val_bound(data@.take(8));
                lemma_pow256_values();
            }
            Ok((x as u64, 8))
        } else {
            Err(Error::InsufficientInput { required: 8, actual: data.len() })
        }
    }
}

impl Transmittable for u64 {
    proof fn lemma_wire_round_trip(&self, rest: Seq<u8>) {
        lemma_pow256_values();
        lemma_le_round_trip(*self as nat, 8, rest);
    }
}

impl Serializable for i64 {
    open spec fn wire_form(&self) -> Seq<u8> {
        le_seq(to_unsigned(*self as int, 8), 8)
    }

    fn serialize_append(&self, v: Vec<u8>) -> (r: Result<Vec<u8>, Error>) {
        let ux = i64_to_u64(*self);
        Ok(le_append(ux as u128, 8, v))
    }
}

impl Deserializable for i64 {
    open spec fn spec_deserialize(data: Seq<u8>) -> Result<(i64, nat), Error> {
        if data.len() >= 8 {
            Ok((as_signed(le_val(data.take(8)), 8) as i64, 8nat))
        } else {
            Err(Error::InsufficientInput { required: 8, actual: data.len() as usize })
        }
    }

    fn deserialize(data: &[u8]) -> (r: Result<(Self, usize), Error>) {
        if data.len() >= 8 {
            let x = le_read(data, 8);
            proof {
                lemma_le_val_bound(data@.take(8));
                lemma_pow256_values();
            }
            Ok((u64_to_i64(x as u64), 8))
        } else {
            Err(Error::InsufficientInput { required: 8, actual: data.len() })
        }
    }
}

impl Transmittable for i64 {
    proof fn lemma_wire_round_trip(&self, rest: Seq<u8>) {
        lemma_pow256_values();
        lemma_le_round_trip(to_unsigned(*self as int, 8), 8, rest);
    }
}

impl Serializable for u128 {
    open spec fn wire_form(&self) -> Seq<u8> {
        le_seq(*self as nat, 16)
    }

    fn serialize_append(&self, v: Vec<u8>) -> (r: Result<Vec<u8>, Error>) {
        Ok(le_append(*self, 16, v))
    }
}

impl Deserializable for u128 {
    open spec fn spec_deserialize(data: Seq<u8>) -> Result<(u128, nat), Error> {
        if data.len() >= 16 {
            Ok((le_val(data.take(16)) as u128, 16nat))
        } else {
            Err(Error::InsufficientInput { required: 16, actual: data.len() as usize })
        }
    }

    fn deserialize(data: &[u8]) -> (r: Result<(Self, usize), Error>) {
        if data.len() >= 16 {
            let x = le_read(data, 16);
            proof {
                lemma_le_val_bound(data@.take(16));
                lemma_pow256_values();
            }
            Ok((x, 16))
        } else {
            Err(Error::InsufficientInput { required: 16, actual: data.len() })
        }
    }
}

impl Transmittable for u128 {
    proof fn lemma_wire_round_trip(&self, rest: Seq<u8>) {
        lemma_pow256_values();
        lemma_le_round_trip(*self as nat, 16, rest);
    }
}

impl Serializable for i128 {
    open spec fn wire_form(&self) -> Seq<u8> {
        le_seq(to_unsigned(*self as int, 16), 16)
    }

    fn serialize_append(&self, v: Vec<u8>) -> (r: Result<Vec<u8>, Error>) {
        let ux = i128_to_u128(*self);
        Ok(le_append(ux, 16, v))
    }
}

impl Deserializable for i128 {
    open spec fn spec_deserialize(data: Seq<u8>) -> Result<(i128, nat), Error> {
        if data.len() >= 16 {
            Ok((as_signed(le_val(data.take(16)), 16) as i128, 16nat))
        } else {
            Err(Error::InsufficientInput { required: 16, actual: data.len() as usize })
        }
    }

    fn deserialize(data: &[u8]) -> (r: Result<(Self, usize), Error>) {
        if data.len() >= 16 {
            let x = le_read(data, 16);
            proof {
                lemma_le_val_bound(data@.take(16));
                lemma_pow256_values();
            }
            Ok((u128_to_i128(x), 16))
        } else {
            Err(Error::InsufficientInput { required: 16, actual: data.len() })
        }
    }
}

impl Transmittable for i128 {
    proof fn lemma_wire_round_trip(&self, rest: Seq<u8>) {
        lemma_pow256_values();
        lemma_le_round_trip(to_unsigned(*self as int, 16), 16, rest);
    }
}

} // verus!
