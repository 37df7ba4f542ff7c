//! From a coordinate to the cell it falls in. Coordinates are
//! single-precision numbers; the library reads them by their bits and works
//! in integers throughout.

use vstd::arithmetic::power2::{lemma2_to64, lemma_pow2_strictly_increases, lemma_pow2_unfold, pow2};
use vstd::bits::{lemma_u32_shl_is_mul, lemma_u32_shr_is_div};
use vstd::prelude::*;

verus! {

/// Whether the sign bit of a single-precision number is set.
pub open spec fn is_negative(bits: u32) -> bool {
    bits >= 0x8000_0000
}

/// The biased exponent of a single-precision number: eight bits.
pub open spec fn exponent(bits: u32) -> nat {
    (bits as nat / 0x80_0000) % 0x100
}

/// The fraction of a single-precision number: the low twenty-three bits.
pub open spec fn fraction(bits: u32) -> nat {
    bits as nat % 0x80_0000
}

/// Whether the bits are those of no number at all.
pub open spec fn is_nan(bits: u32) -> bool {
    exponent(bits) == 0xff && fraction(bits) != 0
}

/// The magnitude of the number, rounded to the nearest integer with halves
/// going up. With exponent `e` above zero and significand `m`, which is the
/// fraction with a leading one, the magnitude is `m * 2^(e - 150)`: a whole
/// number from exponent 150 on, and below that `m` over a power of two, to
/// which half that power is added before the division drops the remainder.
/// With exponent zero the magnitude is far below a half. An infinity counts
/// as the large number that its bits spell.
pub open spec fn rounded_magnitude(bits: u32) -> nat {
    let e = exponent(bits);
    let m = 0x80_0000 + fraction(bits);
    if e == 0 {
        0
    } else if e >= 150 {
        m * pow2((e - 150) as nat)
    } else {
        (m + pow2((149 - e) as nat)) / pow2((150 - e) as nat)
    }
}

/// The cell of a coordinate: the nearest integer, halves away from zero,
/// held to the range of a signed 32-bit integer; zero for what is not a
/// number.
pub open spec fn nearest_cell(bits: u32) -> int {
    let magnitude = rounded_magnitude(bits);
    if is_nan(bits) {
        0
    } else if is_negative(bits) {
        if magnitude >= 0x8000_0000 {
            i32::MIN as int
        } else {
            -magnitude
        }
    } else {
        if magnitude > i32::MAX {
            i32::MAX as int
        } else {
            magnitude as int
        }
    }
}

/// The cell of the coordinate with the given bits.
pub fn cell_of_bits(bits: u32) -> (cell: i32)
    ensures
        cell == nearest_cell(bits),
{
    let e: u32 = (bits >> 23) & 0xff;
    let f: u32 = bits & 0x7f_ffff;
    assert(e == (bits / 0x80_0000) % 0x100 && f == bits % 0x80_0000 && f < 0x80_0000 && e < 0x100)
        by (bit_vector)
        requires
            e == (bits >> 23) & 0xff,
            f == bits & 0x7f_ffff,
    ;
    if e == 0xff && f != 0 {
        return 0;
    }
    let m: u32 = 0x80_0000 + f;
    // At least 2^31 stands for every magnitude that does not fit.
    let magnitude: u32 = if e < 126 {
        proof {
            lemma_below_a_half(e as nat, m as nat);
        }
        0
    } else if e < 150 {
        let shift: u32 = 150 - e;
        proof {
            lemma2_to64();
            lemma_pow2_strictly_increases((shift - 1) as nat, 24);
            lemma_u32_shl_is_mul(1, (shift - 1) as u32);
            lemma_u32_shr_is_div((m + (1u32 << ((shift - 1) as u32))) as u32, shift);
        }
        (m + (1u32 << (shift - 1))) >> shift
    } else if e < 158 {
        proof {
            lemma_whole(e as nat, m as nat);
            lemma_u32_shl_is_mul(m, (e - 150) as u32);
        }
        m << (e - 150)
    } else {
        proof {
            lemma_too_large(e as nat, m as nat);
        }
        0x8000_0000
    };
    if bits >= 0x8000_0000 {
        if magnitude >= 0x8000_0000 {
            i32::MIN
        } else {
            -(magnitude as i32)
        }
    } else {
        if magnitude > i32::MAX as u32 {
            i32::MAX
        } else {
            magnitude as i32
        }
    }
}

/// Below exponent 126 the magnitude is less than a half.
proof fn lemma_below_a_half(e: nat, m: nat)
    requires
        e < 126,
        m < 0x100_0000,
    ensures
        (m + pow2((149 - e) as nat)) / pow2((150 - e) as nat) == 0,
{
    let half = pow2((149 - e) as nat);
    lemma2_to64();
    if 149 - e > 24 {
        lemma_pow2_strictly_increases(24, (149 - e) as nat);
    }
    lemma_pow2_unfold((150 - e) as nat);
    assert(pow2((150 - e) as nat) == 2 * half);
    assert((m + half) / (2 * half) == 0) by (nonlinear_arith)
        requires
            0 <= m < half,
    ;
}

/// From exponent 150 to 157 the magnitude is a whole number below 2^31.
proof fn lemma_whole(e: nat, m: nat)
    requires
        150 <= e < 158,
        m < 0x100_0000,
    ensures
        m * pow2((e - 150) as nat) < 0x8000_0000,
{
    lemma2_to64();
    if e < 157 {
        lemma_pow2_strictly_increases((e - 150) as nat, 7);
    }
    assert(m * pow2((e - 150) as nat) < 0x8000_0000) by (nonlinear_arith)
        requires
            m < 0x100_0000,
            pow2((e - 150) as nat) <= 0x80,
    ;
}

/// From exponent 158 on the magnitude is 2^31 at least.
proof fn lemma_too_large(e: nat, m: nat)
    requires
        158 <= e,
        0x80_0000 <= m,
    ensures
        m * pow2((e - 150) as nat) >= 0x8000_0000,
{
    lemma2_to64();
    if e > 158 {
        lemma_pow2_strictly_increases(8, (e - 150) as nat);
    }
    assert(m * pow2((e - 150) as nat) >= 0x8000_0000) by (nonlinear_arith)
        requires
            m >= 0x80_0000,
            pow2((e - 150) as nat) >= 0x100,
    ;
}

} // verus!
