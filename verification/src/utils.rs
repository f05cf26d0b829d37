//! Bit packing (most significant bit first) and character lookup.

use vstd::arithmetic::div_mod::{
    lemma_add_mod_noop, lemma_fundamental_div_mod, lemma_fundamental_div_mod_converse,
    lemma_mul_mod_noop_right, lemma_small_mod,
};
use vstd::arithmetic::power2::{lemma2_to64, lemma2_to64_rest, lemma_pow2_adds, lemma_pow2_pos, lemma_pow2_unfold, pow2};
use vstd::prelude::*;
use vstd::string::StrSliceExecFns;

verus! {

/// The number a bit sequence denotes, first bit most significant:
/// the sum of `bits[i] * 2^(n - 1 - i)`.
pub open spec fn bits_value(bits: Seq<bool>) -> nat
    decreases bits.len(),
{
    if bits.len() == 0 {
        0
    } else {
        2 * bits_value(bits.drop_last()) + if bits.last() { 1nat } else { 0nat }
    }
}

/// What packing `bits` into an unsigned integer of `width` bits yields: the
/// denoted number, of which only the low `width` bits are kept.
pub open spec fn packed(bits: Seq<bool>, width: nat) -> nat {
    bits_value(bits) % pow2(width)
}

/// One more bit at the end doubles the value and adds the bit.
pub proof fn lemma_bits_value_push(bits: Seq<bool>, bit: bool)
    ensures
        bits_value(bits.push(bit)) == 2 * bits_value(bits) + if bit { 1nat } else { 0nat },
{
    assert(bits.push(bit).drop_last() =~= bits);
    assert(bits.push(bit).last() == bit);
}

/// Shifting a packed prefix left and adding the next bit packs the longer
/// prefix.
proof fn lemma_packed_step(bits: Seq<bool>, i: int, width: nat)
    requires
        0 <= i < bits.len(),
    ensures
        packed(bits.take(i + 1), width) == (2 * packed(bits.take(i), width) + if bits[i] {
            1nat
        } else {
            0nat
        }) % pow2(width),
{
    let m = pow2(width) as int;
    lemma_pow2_pos(width);
    let v = bits_value(bits.take(i)) as int;
    let b: int = if bits[i] { 1 } else { 0 };
    assert(bits.take(i + 1) =~= bits.take(i).push(bits[i]));
    lemma_bits_value_push(bits.take(i), bits[i]);
    lemma_mul_mod_noop_right(2, v, m);
    lemma_add_mod_noop(2 * (v % m), b, m);
    lemma_add_mod_noop(2 * v, b, m);
}

/// Packs `bits` into a `u8`, first bit most significant. Bits beyond the
/// last 8 are shifted out.
pub fn bool_slice_to_u8<const SIZE: usize>(bits: &[bool; SIZE]) -> (value: u8)
    ensures
        value as nat == packed(bits@, 8),
        bits@.len() <= 8 ==> value as nat == bits_value(bits@),
{
    let mut acc: u8 = 0;
    let mut i: usize = 0;
    proof {
        lemma2_to64();
        lemma_small_mod(0, pow2(8));
    }
    while i < SIZE
        invariant
            i <= SIZE == bits@.len(),
            acc as nat == packed(bits@.take(i as int), 8),
            pow2(8) == 0x100,
        decreases SIZE - i,
    {
        let bit: u8 = if bits[i] { 1 } else { 0 };
        proof {
            lemma_packed_step(bits@, i as int, 8);
            assert(((acc << 1) | bit) as int == (2 * (acc as int) + (bit as int)) % 0x100)
                by (bit_vector)
                requires
                    bit <= 1,
            ;
        }
        acc = (acc << 1) | bit;
        i += 1;
    }
    proof {
        assert(bits@.take(bits@.len() as int) =~= bits@);
        if bits@.len() <= 8 {
            lemma_bits_value_bound(bits@);
            lemma_pow2_monotone(bits@.len(), 8);
            lemma_small_mod(bits_value(bits@), pow2(8));
        }
    }
    acc
}

/// Packs `bits` into a `u16`, first bit most significant. Bits beyond the
/// last 16 are shifted out.
pub fn bool_slice_to_u16<const SIZE: usize>(bits: &[bool; SIZE]) -> (value: u16)
    ensures
        value as nat == packed(bits@, 16),
        bits@.len() <= 16 ==> value as nat == bits_value(bits@),
{
    let mut acc: u16 = 0;
    let mut i: usize = 0;
    proof {
        lemma2_to64();
        lemma_small_mod(0, pow2(16));
    }
    while i < SIZE
        invariant
            i <= SIZE == bits@.len(),
            acc as nat == packed(bits@.take(i as int), 16),
            pow2(16) == 0x1_0000,
        decreases SIZE - i,
    {
        let bit: u16 = if bits[i] { 1 } else { 0 };
        proof {
            lemma_packed_step(bits@, i as int, 16);
            assert(((acc << 1) | bit) as int == (2 * (acc as int) + (bit as int)) % 0x1_0000)
                by (bit_vector)
                requires
                    bit <= 1,
            ;
        }
        acc = (acc << 1) | bit;
        i += 1;
    }
    proof {
        assert(bits@.take(bits@.len() as int) =~= bits@);
        if bits@.len() <= 16 {
            lemma_bits_value_bound(bits@);
            lemma_pow2_monotone(bits@.len(), 16);
            lemma_small_mod(bits_value(bits@), pow2(16));
        }
    }
    acc
}

/// Packs `bits` into a `u32`, first bit most significant. Bits beyond the
/// last 32 are shifted out.
pub fn bool_slice_to_u32<const SIZE: usize>(bits: &[bool; SIZE]) -> (value: u32)
    ensures
        value as nat == packed(bits@, 32),
        bits@.len() <= 32 ==> value as nat == bits_value(bits@),
{
    let mut acc: u32 = 0;
    let mut i: usize = 0;
    proof {
        lemma2_to64();
        lemma_small_mod(0, pow2(32));
    }
    while i < SIZE
        invariant
            i <= SIZE == bits@.len(),
            acc as nat == packed(bits@.take(i as int), 32),
            pow2(32) == 0x1_0000_0000,
        decreases SIZE - i,
    {
        let bit: u32 = if bits[i] { 1 } else { 0 };
        proof {
            lemma_packed_step(bits@, i as int, 32);
            assert(((acc << 1) | bit) as int == (2 * (acc as int) + (bit as int)) % 0x1_0000_0000)
                by (bit_vector)
                requires
                    bit <= 1,
            ;
        }
        acc = (acc << 1) | bit;
        i += 1;
    }
    proof {
        assert(bits@.take(bits@.len() as int) =~= bits@);
        if bits@.len() <= 32 {
            lemma_bits_value_bound(bits@);
            lemma_pow2_monotone(bits@.len(), 32);
            lemma_small_mod(bits_value(bits@), pow2(32));
        }
    }
    acc
}

/// Packs `bits` into a `u64`, first bit most significant. Bits beyond the
/// last 64 are shifted out.
pub fn bool_slice_to_u64<const SIZE: usize>(bits: &[bool; SIZE]) -> (value: u64)
    ensures
        value as nat == packed(bits@, 64),
        bits@.len() <= 64 ==> value as nat == bits_value(bits@),
{
    let mut acc: u64 = 0;
    let mut i: usize = 0;
    proof {
        lemma2_to64();
        lemma2_to64_rest();
        lemma_small_mod(0, pow2(64));
    }
    while i < SIZE
        invariant
            i <= SIZE == bits@.len(),
            acc as nat == packed(bits@.take(i as int), 64),
            pow2(64) == 0x1_0000_0000_0000_0000,
        decreases SIZE - i,
    {
        let bit: u64 = if bits[i] { 1 } else { 0 };
        proof {
            lemma_packed_step(bits@, i as int, 64);
            assert(((acc << 1) | bit) as int == (2 * (acc as int) + (bit as int)) % 0x1_0000_0000_0000_0000)
                by (bit_vector)
                requires
                    bit <= 1,
            ;
        }
        acc = (acc << 1) | bit;
        i += 1;
    }
    proof {
        assert(bits@.take(bits@.len() as int) =~= bits@);
        if bits@.len() <= 64 {
            lemma_bits_value_bound(bits@);
            lemma_pow2_monotone(bits@.len(), 64);
            lemma_small_mod(bits_value(bits@), pow2(64));
        }
    }
    acc
}

/// Packs `bits` into a `u128`, first bit most significant. Bits beyond the
/// last 128 are shifted out.
pub fn bool_slice_to_u128<const SIZE: usize>(bits: &[bool; SIZE]) -> (value: u128)
    ensures
        value as nat == packed(bits@, 128),
        bits@.len() <= 128 ==> value as nat == bits_value(bits@),
{
    let mut acc: u128 = 0;
    let mut i: usize = 0;
    proof {
        lemma_pow2_128();
        lemma_small_mod(0, pow2(128));
    }
    while i < SIZE
        invariant
            i <= SIZE == bits@.len(),
            acc as nat == packed(bits@.take(i as int), 128),
            pow2(128) == 0x1_0000_0000_0000_0000_0000_0000_0000_0000int,
        decreases SIZE - i,
    {
        let bit: u128 = if bits[i] { 1 } else { 0 };
        proof {
            lemma_packed_step(bits@, i as int, 128);
            assert(((acc << 1) | bit) as int == (2 * (acc as int) + (bit as int)) % 0x1_0000_0000_0000_0000_0000_0000_0000_0000int)
                by (bit_vector)
                requires
                    bit <= 1,
            ;
        }
        acc = (acc << 1) | bit;
        i += 1;
    }
    proof {
        assert(bits@.take(bits@.len() as int) =~= bits@);
        if bits@.len() <= 128 {
            lemma_bits_value_bound(bits@);
            lemma_pow2_monotone(bits@.len(), 128);
            lemma_small_mod(bits_value(bits@), pow2(128));
        }
    }
    acc
}

/// A sequence of `n` bits denotes a number below `2^n`.
pub proof fn lemma_bits_value_bound(bits: Seq<bool>)
    ensures
        bits_value(bits) < pow2(bits.len()),
    decreases bits.len(),
{
    if bits.len() == 0 {
        lemma2_to64();
    } else {
        lemma_bits_value_bound(bits.drop_last());
        lemma_pow2_unfold(bits.len());
    }
}

/// `2^128`, written out.
proof fn lemma_pow2_128()
    ensures
        pow2(128) == 0x1_0000_0000_0000_0000_0000_0000_0000_0000int,
{
    lemma2_to64();
    lemma2_to64_rest();
    lemma_pow2_adds(64, 64);
}

proof fn lemma_pow2_monotone(a: nat, b: nat)
    requires
        a <= b,
    ensures
        pow2(a) <= pow2(b),
    decreases b - a,
{
    if a < b {
        lemma_pow2_monotone(a, (b - 1) as nat);
        lemma_pow2_unfold(b);
    }
}

/// The `N` bits of `source` from position `start` on.
pub fn sub_array<const M: usize, const N: usize>(source: &[bool; M], start: usize) -> (part: [
    bool;
    N
])
    requires
        start + N <= M,
    ensures
        part@ == source@.subrange(start as int, start + N),
{
    let mut part = [false; N];
    let mut i: usize = 0;
    while i < N
        invariant
            i <= N,
            start + N <= M,
            part@.len() == N,
            forall|k: int| 0 <= k < i ==> part@[k] == source@[start + k],
        decreases N - i,
    {
        part[i] = source[start + i];
        i += 1;
    }
    proof {
        assert(part@ =~= source@.subrange(start as int, start + N));
    }
    part
}

/// The `width` bits that denote `n`, first bit most significant; of a larger
/// `n` the low `width` bits.
pub open spec fn unpack_bits(n: nat, width: nat) -> Seq<bool>
    decreases width,
{
    if width == 0 {
        Seq::empty()
    } else {
        unpack_bits(n / 2, (width - 1) as nat).push(n % 2 == 1)
    }
}

/// Unpacking and packing again keeps the low `width` bits of a number.
pub proof fn lemma_pack_unpack(n: nat, width: nat)
    ensures
        bits_value(unpack_bits(n, width)) == n % pow2(width),
        packed(unpack_bits(n, width), width) == n % pow2(width),
    decreases width,
{
    lemma_pow2_pos(width);
    if width == 0 {
        lemma2_to64();
    } else {
        let rest = (width - 1) as nat;
        let m = pow2(rest) as int;
        let half = (n / 2) as int;
        let low: int = if n % 2 == 1 { 1 } else { 0 };
        lemma_pack_unpack(n / 2, rest);
        lemma_bits_value_push(unpack_bits(n / 2, rest), n % 2 == 1);
        lemma_pow2_unfold(width);
        lemma_pow2_pos(rest);
        lemma_fundamental_div_mod(half, m);
        let q = half / m;
        let r = half % m;
        assert(n as int == (2 * m) * q + (2 * r + low)) by (nonlinear_arith)
            requires
                half == m * q + r,
                n as int == 2 * half + low,
        ;
        lemma_fundamental_div_mod_converse(n as int, 2 * m, q, 2 * r + low);
    }
    lemma_small_mod(n % pow2(width), pow2(width));
}

/// Packing and unpacking again gives the same bits back.
pub proof fn lemma_unpack_pack(bits: Seq<bool>)
    ensures
        unpack_bits(bits_value(bits), bits.len()) == bits,
        unpack_bits(packed(bits, bits.len()), bits.len()) == bits,
    decreases bits.len(),
{
    if bits.len() == 0 {
        assert(bits =~= Seq::<bool>::empty());
    } else {
        lemma_unpack_pack(bits.drop_last());
        assert(bits.drop_last().push(bits.last()) =~= bits);
    }
    lemma_bits_value_bound(bits);
    lemma_small_mod(bits_value(bits), pow2(bits.len()));
}

/// The `width` bits that denote `n`, first bit most significant.
pub fn unpack_u128(n: u128, width: usize) -> (bits: Vec<bool>)
    ensures
        bits@ == unpack_bits(n as nat, width as nat),
{
    let mut bits: Vec<bool> = Vec::new();
    let mut filled: usize = 0;
    while filled < width
        invariant
            filled <= width,
            bits@.len() == filled,
        decreases width - filled,
    {
        bits.push(false);
        filled += 1;
    }
    let mut rest: u128 = n;
    let mut left: usize = width;
    proof {
        assert(bits@.subrange(width as int, width as int) =~= Seq::<bool>::empty());
    }
    while left > 0
        invariant
            left <= width,
            bits@.len() == width,
            unpack_bits(n as nat, width as nat) == unpack_bits(rest as nat, left as nat)
                + bits@.subrange(left as int, width as int),
        decreases left,
    {
        let bit = rest % 2 == 1;
        let ghost before = bits@;
        left -= 1;
        bits.set(left, bit);
        proof {
            assert(bits@.subrange(left as int, width as int) =~= seq![bit] + before.subrange(
                left + 1,
                width as int,
            ));
            assert(unpack_bits(rest as nat, (left + 1) as nat) == unpack_bits(
                (rest / 2) as nat,
                left as nat,
            ).push(bit));
            assert(unpack_bits((rest / 2) as nat, left as nat).push(bit) + before.subrange(
                left + 1,
                width as int,
            ) =~= unpack_bits((rest / 2) as nat, left as nat) + (seq![bit] + before.subrange(
                left + 1,
                width as int,
            )));
        }
        rest = rest / 2;
    }
    proof {
        assert(bits@.subrange(0, width as int) =~= bits@);
        assert(unpack_bits(rest as nat, 0) + bits@ =~= bits@);
    }
    bits
}

/// The character at `index` of a character set, and `'?'` for an index
/// outside it.
pub open spec fn lookup_char(charset: Seq<char>, index: int) -> char {
    if 0 <= index < charset.len() {
        charset[index]
    } else {
        '?'
    }
}

/// Looks a character up in `charset`; an index outside it gives `'?'`.
pub fn char_lookup(x: usize, charset: &str) -> (c: char)
    ensures
        c == lookup_char(charset@, x as int),
{
    if x >= charset.unicode_len() {
        return '?';
    }
    charset.get_char(x)
}

} // verus!
