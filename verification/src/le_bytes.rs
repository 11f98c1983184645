//! The mathematical model of the wire format's little-endian byte strings,
//! together with the two executable helpers every fixed-width integer codec
//! is built from.

use vstd::prelude::*;

verus! {

/// 256 raised to `w`: the number of distinct values a `w`-byte field can hold.
pub open spec fn pow256(w: nat) -> nat
    decreases w,
{
    if w == 0 {
        1
    } else {
        256 * pow256((w - 1) as nat)
    }
}

/// The little-endian wire form of `x` in exactly `w` bytes: the least
/// significant byte comes first. Bits of `x` beyond the `w`-th byte are cut.
pub open spec fn le_seq(x: nat, w: nat) -> Seq<u8>
    decreases w,
{
    if w == 0 {
        Seq::empty()
    } else {
        seq![(x % 256) as u8] + le_seq(x / 256, (w - 1) as nat)
    }
}

/// The value a little-endian byte string stands for.
pub open spec fn le_val(s: Seq<u8>) -> nat
    decreases s.len(),
{
    if s.len() == 0 {
        0nat
    } else {
        (s[0] + 256 * le_val(s.drop_first())) as nat
    }
}

/// The unsigned number whose `w`-byte little-endian form is shared with the
/// signed number `v`: two's complement.
pub open spec fn to_unsigned(v: int, w: nat) -> nat {
    if v >= 0 {
        v as nat
    } else {
        (v + pow256(w)) as nat
    }
}

/// The signed reading of an unsigned `w`-byte value: two's complement.
pub open spec fn as_signed(x: nat, w: nat) -> int {
    if x < pow256(w) / 2 {
        x as int
    } else {
        x - pow256(w)
    }
}

/// A `w`-byte wire form has exactly `w` bytes.
pub proof fn lemma_le_seq_len(x: nat, w: nat)
    ensures
        le_seq(x, w).len() == w,
    decreases w,
{
    if w > 0 {
        lemma_le_seq_len(x / 256, (w - 1) as nat);
    }
}

/// A byte string of length `w` stands for a value below `pow256(w)`.
pub proof fn lemma_le_val_bound(s: Seq<u8>)
    ensures
        le_val(s) < pow256(s.len()),
    decreases s.len(),
{
    if s.len() > 0 {
        lemma_le_val_bound(s.drop_first());
        let rest = le_val(s.drop_first());
        let p = pow256((s.len() - 1) as nat);
        assert(256 * rest <= 256 * (p - 1)) by (nonlinear_arith)
            requires
                rest <= p - 1,
        ;
    }
}

/// Reading back the `w`-byte wire form of `x` yields `x` whenever `x` fits
/// in `w` bytes.
pub proof fn lemma_le_val_le_seq(x: nat, w: nat)
    requires
        x < pow256(w),
    ensures
        le_val(le_seq(x, w)) == x,
    decreases w,
{
    if w > 0 {
        let rest = le_seq(x / 256, (w - 1) as nat);
        assert((seq![(x % 256) as u8] + rest).drop_first() =~= rest);
        assert(x / 256 < pow256((w - 1) as nat)) by (nonlinear_arith)
            requires
                x < 256 * pow256((w - 1) as nat),
        ;
        lemma_le_val_le_seq(x / 256, (w - 1) as nat);
        vstd::arithmetic::div_mod::lemma_fundamental_div_mod(x as int, 256);
    }
}

/// Re-encoding the value a byte string stands for yields that byte string
/// back: `le_seq` and `le_val` invert each other in this direction too.
pub proof fn lemma_le_seq_le_val(s: Seq<u8>)
    ensures
        le_seq(le_val(s), s.len()) == s,
    decreases s.len(),
{
    if s.len() > 0 {
        let rest = le_val(s.drop_first());
        vstd::arithmetic::div_mod::lemma_fundamental_div_mod_converse(
            le_val(s) as int,
            256,
            rest as int,
            s[0] as int,
        );
        lemma_le_seq_le_val(s.drop_first());
        assert(le_seq(le_val(s), s.len()) =~= s);
    } else {
        assert(le_seq(le_val(s), s.len()) =~= s);
    }
}

/// `pow256` grows with its exponent.
pub proof fn lemma_pow256_le(a: nat, b: nat)
    requires
        a <= b,
    ensures
        pow256(a) <= pow256(b),
    decreases b,
{
    if a < b {
        lemma_pow256_le(a, (b - 1) as nat);
        assert(pow256((b - 1) as nat) <= 256 * pow256((b - 1) as nat)) by (nonlinear_arith)
            requires
                pow256((b - 1) as nat) >= 0,
        ;
    }
}

/// The `pow256` values the fixed-width codecs speak of.
pub proof fn lemma_pow256_values()
    ensures
        pow256(1) == 0x100,
        pow256(2) == 0x1_0000,
        pow256(4) == 0x1_0000_0000,
        pow256(8) == 0x1_0000_0000_0000_0000,
        pow256(16) == 0x1_0000_0000_0000_0000_0000_0000_0000_0000,
{
    reveal_with_fuel(pow256, 17);
}

/// A `w`-byte wire form followed by arbitrary trailing bytes reads back as
/// the value it was made from, consuming exactly its own `w` bytes.
pub proof fn lemma_le_round_trip(x: nat, w: nat, rest: Seq<u8>)
    requires
        x < pow256(w),
    ensures
        le_seq(x, w).len() == w,
        (le_seq(x, w) + rest).len() >= w,
        (le_seq(x, w) + rest).take(w as int) == le_seq(x, w),
        le_val((le_seq(x, w) + rest).take(w as int)) == x,
{
    lemma_le_seq_len(x, w);
    assert((le_seq(x, w) + rest).take(w as int) =~= le_seq(x, w));
    lemma_le_val_le_seq(x, w);
}

/// Appends the `w`-byte little-endian form of `x` to `v`.
pub fn le_append(x: u128, w: usize, v: Vec<u8>) -> (r: Vec<u8>)
    ensures
        r@ == v@ + le_seq(x as nat, w as nat),
    decreases w,
{
    if w == 0 {
        proof {
            assert(v@ + le_seq(x as nat, 0) =~= v@);
        }
        v
    } else {
        let mut v2 = v;
        let b: u8 = (x % 256) as u8;
        v2.push(b);
        let r = le_append(x / 256, w - 1, v2);
        proof {
            assert(r@ =~= v@ + le_seq(x as nat, w as nat));
        }
        r
    }
}

/// Reads the value the first `w` bytes of `data` stand for, little-endian.
pub fn le_read(data: &[u8], w: usize) -> (x: u128)
    requires
        w <= data@.len(),
        w <= 16,
    ensures
        x as nat == le_val(data@.take(w as int)),
    decreases w,
{
    if w == 0 {
        proof {
            assert(data@.take(0) =~= Seq::<u8>::empty());
        }
        0
    } else {
        let b0: u8 = *vstd::slice::slice_index_get(data, 0);
        let tail = vstd::slice::slice_subrange(data, 1, data.len());
        let rest = le_read(tail, w - 1);
        proof {
            lemma_le_val_bound(tail@.take((w - 1) as int));
            lemma_pow256_le((w - 1) as nat, 15);
            lemma_pow256_values();
            assert(pow256(16) == 256 * pow256(15));
            assert(256 * (rest as nat) <= 256 * (pow256(15) - 1)) by (nonlinear_arith)
                requires
                    rest as nat <= pow256(15) - 1,
            ;
        }
        let x = (b0 as u128) + 256 * rest;
        proof {
            assert(data@.take(w as int).drop_first() =~= tail@.take((w - 1) as int));
            assert(data@.take(w as int)[0] == b0);
        }
        x
    }
}

} // verus!
