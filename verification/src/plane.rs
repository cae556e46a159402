use vstd::prelude::*;

verus! {

/// Two to the `n`-th power.
pub open spec fn two_pow(n: nat) -> nat
    decreases n,
{
    if n == 0 {
        1
    } else {
        2 * two_pow((n - 1) as nat)
    }
}

/// `two_pow` grows with its argument.
pub proof fn lemma_two_pow_mono(a: nat, b: nat)
    requires
        a <= b,
    ensures
        two_pow(a) <= two_pow(b),
    decreases b,
{
    if a < b {
        lemma_two_pow_mono(a, (b - 1) as nat);
    }
}

/// The value of up to eight pixels packed into one byte, first pixel in the
/// most significant position.
pub open spec fn pack_bits(bits: Seq<bool>) -> nat
    decreases bits.len(),
{
    if bits.len() == 0 {
        0
    } else {
        2 * pack_bits(bits.drop_last()) + (if bits.last() {
            1nat
        } else {
            0nat
        })
    }
}

/// A packed group of pixels fits below two to its length.
pub proof fn lemma_pack_bits_bound(bits: Seq<bool>)
    ensures
        pack_bits(bits) < two_pow(bits.len()),
    decreases bits.len(),
{
    if bits.len() > 0 {
        lemma_pack_bits_bound(bits.drop_last());
    }
}

/// How many bytes a pixel buffer of length `n` packs into: eight pixels per
/// byte, the last byte possibly short.
pub open spec fn plane_len(n: nat) -> nat {
    n / 8 + if n % 8 == 0 {
        0nat
    } else {
        1nat
    }
}

/// The group of up to eight pixels that byte `i` packs.
pub open spec fn chunk(fb: Seq<bool>, i: int) -> Seq<bool> {
    fb.subrange(
        8 * i,
        if 8 * i + 8 <= fb.len() {
            8 * i + 8
        } else {
            fb.len() as int
        },
    )
}

/// Byte `i` of the primary plane: eight pixels packed most significant bit
/// first, inverted to the panel's active-low convention.
pub open spec fn plane_byte(fb: Seq<bool>, i: int) -> u8 {
    (pack_bits(chunk(fb, i)) as u8) ^ 0xff
}

/// The whole primary plane of a pixel buffer.
pub open spec fn plane_bytes(fb: Seq<bool>) -> Seq<u8> {
    Seq::new(plane_len(fb.len()), |i: int| plane_byte(fb, i))
}

/// Whether bit `j` of `b` is set, counting from the least significant bit.
pub open spec fn byte_bit(b: u8, j: nat) -> bool {
    (b >> j) & 1 == 1
}

/// A pixel as the numeric value it packs to.
pub open spec fn bit_val(b: bool) -> nat {
    if b {
        1
    } else {
        0
    }
}

/// A full eight-pixel group packs to its positional sum, first pixel in the
/// most significant place.
proof fn lemma_pack_bits_eight(bits: Seq<bool>)
    requires
        bits.len() == 8,
    ensures
        pack_bits(bits) == 128 * bit_val(bits[0]) + 64 * bit_val(bits[1]) + 32 * bit_val(bits[2])
            + 16 * bit_val(bits[3]) + 8 * bit_val(bits[4]) + 4 * bit_val(bits[5]) + 2 * bit_val(
            bits[6],
        ) + bit_val(bits[7]),
{
    let s7 = bits.drop_last();
    let s6 = s7.drop_last();
    let s5 = s6.drop_last();
    let s4 = s5.drop_last();
    let s3 = s4.drop_last();
    let s2 = s3.drop_last();
    let s1 = s2.drop_last();
    let s0 = s1.drop_last();
    assert(pack_bits(bits) == 2 * pack_bits(s7) + bit_val(bits[7]));
    assert(pack_bits(s7) == 2 * pack_bits(s6) + bit_val(bits[6]));
    assert(pack_bits(s6) == 2 * pack_bits(s5) + bit_val(bits[5]));
    assert(pack_bits(s5) == 2 * pack_bits(s4) + bit_val(bits[4]));
    assert(pack_bits(s4) == 2 * pack_bits(s3) + bit_val(bits[3]));
    assert(pack_bits(s3) == 2 * pack_bits(s2) + bit_val(bits[2]));
    assert(pack_bits(s2) == 2 * pack_bits(s1) + bit_val(bits[1]));
    assert(pack_bits(s1) == 2 * pack_bits(s0) + bit_val(bits[0]));
    assert(pack_bits(s0) == 0);
}

/// Reading the packed, inverted plane gives back each pixel of a full group:
/// the pixel at buffer offset `off` appears, inverted, as bit
/// `7 - (off % 8)` of plane byte `off / 8`.
pub proof fn lemma_pack_round_trip(fb: Seq<bool>, off: int)
    requires
        0 <= off < fb.len(),
        8 * (off / 8) + 8 <= fb.len(),
    ensures
        byte_bit(plane_byte(fb, off / 8), (7 - off % 8) as nat) == !fb[off],
{
    let i = off / 8;
    let k = off % 8;
    let c = chunk(fb, i);
    assert(c.len() == 8);
    assert(c[k] == fb[off]);
    lemma_pack_bits_eight(c);
    lemma_pack_bits_bound(c);
    assert(two_pow(8) == 256) by {
        reveal_with_fuel(two_pow, 9);
    }
    let x: u8 = pack_bits(c) as u8;
    let b0: u8 = (bit_val(c[0])) as u8;
    let b1: u8 = (bit_val(c[1])) as u8;
    let b2: u8 = (bit_val(c[2])) as u8;
    let b3: u8 = (bit_val(c[3])) as u8;
    let b4: u8 = (bit_val(c[4])) as u8;
    let b5: u8 = (bit_val(c[5])) as u8;
    let b6: u8 = (bit_val(c[6])) as u8;
    let b7: u8 = (bit_val(c[7])) as u8;
    assert(x == 128 * b0 + 64 * b1 + 32 * b2 + 16 * b3 + 8 * b4 + 4 * b5 + 2 * b6 + b7);
    if k == 0 {
        assert((((x ^ 0xff) >> 7) & 1) == 1 - b0) by (bit_vector)
            requires
                x == 128 * b0 + 64 * b1 + 32 * b2 + 16 * b3 + 8 * b4 + 4 * b5 + 2 * b6 + b7,
                b0 <= 1 && b1 <= 1 && b2 <= 1 && b3 <= 1 && b4 <= 1 && b5 <= 1 && b6 <= 1 && b7
                    <= 1,
        ;
    } else if k == 1 {
        assert((((x ^ 0xff) >> 6) & 1) == 1 - b1) by (bit_vector)
            requires
                x == 128 * b0 + 64 * b1 + 32 * b2 + 16 * b3 + 8 * b4 + 4 * b5 + 2 * b6 + b7,
                b0 <= 1 && b1 <= 1 && b2 <= 1 && b3 <= 1 && b4 <= 1 && b5 <= 1 && b6 <= 1 && b7
                    <= 1,
        ;
    } else if k == 2 {
        assert((((x ^ 0xff) >> 5) & 1) == 1 - b2) by (bit_vector)
            requires
                x == 128 * b0 + 64 * b1 + 32 * b2 + 16 * b3 + 8 * b4 + 4 * b5 + 2 * b6 + b7,
                b0 <= 1 && b1 <= 1 && b2 <= 1 && b3 <= 1 && b4 <= 1 && b5 <= 1 && b6 <= 1 && b7
                    <= 1,
        ;
    } else if k == 3 {
        assert((((x ^ 0xff) >> 4) & 1) == 1 - b3) by (bit_vector)
            requires
                x == 128 * b0 + 64 * b1 + 32 * b2 + 16 * b3 + 8 * b4 + 4 * b5 + 2 * b6 + b7,
                b0 <= 1 && b1 <= 1 && b2 <= 1 && b3 <= 1 && b4 <= 1 && b5 <= 1 && b6 <= 1 && b7
                    <= 1,
        ;
    } else if k == 4 {
        assert((((x ^ 0xff) >> 3) & 1) == 1 - b4) by (bit_vector)
            requires
                x == 128 * b0 + 64 * b1 + 32 * b2 + 16 * b3 + 8 * b4 + 4 * b5 + 2 * b6 + b7,
                b0 <= 1 && b1 <= 1 && b2 <= 1 && b3 <= 1 && b4 <= 1 && b5 <= 1 && b6 <= 1 && b7
                    <= 1,
        ;
    } else if k == 5 {
        assert((((x ^ 0xff) >> 2) & 1) == 1 - b5) by (bit_vector)
            requires
                x == 128 * b0 + 64 * b1 + 32 * b2 + 16 * b3 + 8 * b4 + 4 * b5 + 2 * b6 + b7,
                b0 <= 1 && b1 <= 1 && b2 <= 1 && b3 <= 1 && b4 <= 1 && b5 <= 1 && b6 <= 1 && b7
                    <= 1,
        ;
    } else if k == 6 {
        assert((((x ^ 0xff) >> 1) & 1) == 1 - b6) by (bit_vector)
            requires
                x == 128 * b0 + 64 * b1 + 32 * b2 + 16 * b3 + 8 * b4 + 4 * b5 + 2 * b6 + b7,
                b0 <= 1 && b1 <= 1 && b2 <= 1 && b3 <= 1 && b4 <= 1 && b5 <= 1 && b6 <= 1 && b7
                    <= 1,
        ;
    } else {
        assert((((x ^ 0xff) >> 0) & 1) == 1 - b7) by (bit_vector)
            requires
                x == 128 * b0 + 64 * b1 + 32 * b2 + 16 * b3 + 8 * b4 + 4 * b5 + 2 * b6 + b7,
                b0 <= 1 && b1 <= 1 && b2 <= 1 && b3 <= 1 && b4 <= 1 && b5 <= 1 && b6 <= 1 && b7
                    <= 1,
        ;
    }
}

/// Round trip: set one pixel, pack, and the primary plane shows exactly that
/// pixel, inverted, at the documented bit position. Holds for every offset
/// whose plane byte packs a full eight-pixel group.
pub proof fn lemma_pixel_round_trip(fb: Seq<bool>, off: int, on: bool)
    requires
        0 <= off < fb.len(),
        8 * (off / 8) + 8 <= fb.len(),
    ensures
        byte_bit(plane_bytes(fb.update(off, on))[off / 8], (7 - off % 8) as nat) == !on,
{
    let fb2 = fb.update(off, on);
    lemma_pack_round_trip(fb2, off);
    assert(0 <= off / 8 < plane_len(fb2.len()));
    assert(plane_bytes(fb2)[off / 8] == plane_byte(fb2, off / 8));
}

} // verus!
