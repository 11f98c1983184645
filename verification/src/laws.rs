//! The laws every codec of this crate obeys, stated once over the whole
//! contract and proved from what the individual codecs establish.

use crate::deserializable::Deserializable;
use crate::error::Error;
use crate::ipv4_addr::Ipv4Addr;
use crate::le_bytes::lemma_le_seq_len;
use crate::le_bytes::to_unsigned;
use crate::records::Marker;
use crate::records::Pair;
use crate::records::PairFlipped;
use crate::serializable::Serializable;
use crate::transmittable::Transmittable;
use crate::uuid::Uuid;
use vstd::prelude::*;

verus! {

/// Round trip: for every codec type, decoding a stream that starts with a
/// value's wire form — whatever follows it — yields that value back and
/// consumes exactly the wire form's length.
pub proof fn lemma_round_trip<T: Transmittable>(x: T, rest: Seq<u8>)
    ensures
        T::spec_deserialize(x.wire_form() + rest) == Ok::<(T, nat), Error>(
            (x, x.wire_form().len()),
        ),
{
    x.lemma_wire_round_trip(rest);
}

/// Round trip on exactly the encoded bytes, with nothing after them.
pub proof fn lemma_round_trip_exact<T: Transmittable>(x: T)
    ensures
        T::spec_deserialize(x.wire_form()) == Ok::<(T, nat), Error>((x, x.wire_form().len())),
{
    x.lemma_wire_round_trip(Seq::empty());
    assert(x.wire_form() + Seq::<u8>::empty() =~= x.wire_form());
}

/// Exact width: a fixed-width type's wire form holds exactly as many
/// bytes as the type is wide, whatever the value — zero, the minimum and
/// the maximum included. The address takes its four octets and the
/// identifier its sixteen bytes.
pub proof fn lemma_exact_width(
    a: u8,
    b: i8,
    c: u16,
    d: i16,
    e: u32,
    f: i32,
    g: u64,
    h: i64,
    i: u128,
    j: i128,
    addr: Ipv4Addr,
    id: Uuid,
)
    ensures
        a.wire_form().len() == 1,
        b.wire_form().len() == 1,
        c.wire_form().len() == 2,
        d.wire_form().len() == 2,
        e.wire_form().len() == 4,
        f.wire_form().len() == 4,
        g.wire_form().len() == 8,
        h.wire_form().len() == 8,
        i.wire_form().len() == 16,
        j.wire_form().len() == 16,
        addr.wire_form().len() == 4,
        id.wire_form().len() == 16,
{
    lemma_le_seq_len(a as nat, 1);
    lemma_le_seq_len(to_unsigned(b as int, 1), 1);
    lemma_le_seq_len(c as nat, 2);
    lemma_le_seq_len(to_unsigned(d as int, 2), 2);
    lemma_le_seq_len(e as nat, 4);
    lemma_le_seq_len(to_unsigned(f as int, 4), 4);
    lemma_le_seq_len(g as nat, 8);
    lemma_le_seq_len(to_unsigned(h as int, 8), 8);
    lemma_le_seq_len(i as nat, 16);
    lemma_le_seq_len(to_unsigned(j as int, 16), 16);
    lemma_le_seq_len(id.value as nat, 16);
}

/// Trailing-byte tolerance for the fixed-width types: a decode reads only
/// the leading bytes it needs, so lengthening the input beyond them
/// changes nothing — it succeeds exactly when the width is available, and
/// a shorter input is refused with the width and the length that was
/// found.
pub proof fn lemma_trailing_bytes_ignored(data: Seq<u8>, more: Seq<u8>)
    ensures
        data.len() >= 1 ==> u8::spec_deserialize(data + more) == u8::spec_deserialize(data),
        data.len() >= 1 ==> i8::spec_deserialize(data + more) == i8::spec_deserialize(data),
        data.len() >= 2 ==> u16::spec_deserialize(data + more) == u16::spec_deserialize(data),
        data.len() >= 2 ==> i16::spec_deserialize(data + more) == i16::spec_deserialize(data),
        data.len() >= 4 ==> u32::spec_deserialize(data + more) == u32::spec_deserialize(data),
        data.len() >= 4 ==> i32::spec_deserialize(data + more) == i32::spec_deserialize(data),
        data.len() >= 8 ==> u64::spec_deserialize(data + more) == u64::spec_deserialize(data),
        data.len() >= 8 ==> i64::spec_deserialize(data + more) == i64::spec_deserialize(data),
        data.len() >= 16 ==> u128::spec_deserialize(data + more) == u128::spec_deserialize(data),
        data.len() >= 16 ==> i128::spec_deserialize(data + more) == i128::spec_deserialize(data),
        data.len() >= 4 ==> Ipv4Addr::spec_deserialize(data + more) == Ipv4Addr::spec_deserialize(
            data,
        ),
        data.len() >= 16 ==> Uuid::spec_deserialize(data + more) == Uuid::spec_deserialize(data),
        u8::spec_deserialize(data) is Ok <==> data.len() >= 1,
        u32::spec_deserialize(data) is Ok <==> data.len() >= 4,
        u32::spec_deserialize(data) is Err ==> u32::spec_deserialize(data) == Err::<
            (u32, nat),
            Error,
        >(Error::InsufficientInput { required: 4, actual: data.len() as usize }),
        Uuid::spec_deserialize(data) is Ok <==> data.len() >= 16,
{
    if data.len() >= 1 {
        assert((data + more).take(1) =~= data.take(1));
    }
    if data.len() >= 2 {
        assert((data + more).take(2) =~= data.take(2));
    }
    if data.len() >= 4 {
        assert((data + more).take(4) =~= data.take(4));
    }
    if data.len() >= 8 {
        assert((data + more).take(8) =~= data.take(8));
    }
    if data.len() >= 16 {
        assert((data + more).take(16) =~= data.take(16));
    }
    if data.len() >= 4 {
        assert((data + more)[0] == data[0] && (data + more)[1] == data[1] && (data + more)[2]
            == data[2] && (data + more)[3] == data[3]);
    }
}

/// Trailing-byte tolerance for the record shapes: a record decode, too,
/// reads only the prefix its fields need.
pub proof fn lemma_trailing_bytes_ignored_records(data: Seq<u8>, more: Seq<u8>)
    ensures
        Pair::spec_deserialize(data) is Ok ==> Pair::spec_deserialize(data + more)
            == Pair::spec_deserialize(data),
        PairFlipped::spec_deserialize(data) is Ok ==> PairFlipped::spec_deserialize(data + more)
            == PairFlipped::spec_deserialize(data),
        Marker::spec_deserialize(data + more) == Marker::spec_deserialize(data),
{
    lemma_trailing_bytes_ignored(data, more);
    if data.len() >= 8 {
        assert((data + more).skip(4) =~= data.skip(4) + more);
        lemma_trailing_bytes_ignored(data.skip(4), more);
    }
}

} // verus!
