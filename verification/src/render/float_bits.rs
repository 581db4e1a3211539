use vstd::prelude::*;

use vstd::arithmetic::power2::pow2;

verus! {

/// Position of the most significant set bit of `n` (0 for `n` of 0 or 1).
pub open spec fn msb(n: nat) -> nat
    decreases n,
{
    if n < 2 {
        0
    } else {
        1 + msb(n / 2)
    }
}

/// The IEEE 754 single-precision bit pattern that represents the unsigned
/// integer `n` exactly: a zero sign bit, a biased exponent of `127 + msb(n)`,
/// and the bits of `n` below its leading bit as the mantissa. Exact for every
/// `n` below `pow2(24)`; the packed record's count field stores small counts
/// this way because the kernel reads the count as a float.
pub open spec fn f32_bits_of_uint(n: nat) -> nat {
    if n == 0 {
        0
    } else {
        ((127 + msb(n)) * pow2(23) + (n * pow2((23 - msb(n)) as nat) - pow2(23))) as nat
    }
}

/// `msb` is the exponent of the power of two interval that holds `n`.
proof fn lemma_msb_range(n: nat, k: nat)
    requires
        pow2(k) <= n,
        n < pow2(k + 1),
    ensures
        msb(n) == k,
    decreases k,
{
    vstd::arithmetic::power2::lemma_pow2_unfold(k + 1);
    if k == 0 {
        assert(pow2(1) == 2) by {
            vstd::arithmetic::power2::lemma2_to64();
        }
    } else {
        vstd::arithmetic::power2::lemma_pow2_unfold(k);
        vstd::arithmetic::power2::lemma_pow2_pos((k - 1) as nat);
        assert(pow2((k - 1) as nat) <= n / 2) by {
            assert(n >= 2 * pow2((k - 1) as nat));
        }
        assert(n / 2 < pow2(k)) by {
            assert(n < 2 * pow2(k));
        }
        lemma_msb_range(n / 2, (k - 1) as nat);
        assert(n >= 2);
    }
}

/// The count field of the packed scene record: the single-precision bit
/// pattern of `n`, computed in integer arithmetic so that it can be proved
/// against `f32_bits_of_uint`. `n` is a sphere count already clamped to the
/// record's capacity, so only small values arise.
pub fn f32_bits_of_count(n: usize) -> (r: u32)
    requires
        n <= 16,
    ensures
        r == f32_bits_of_uint(n as nat),
{
    proof {
        vstd::arithmetic::power2::lemma2_to64();
    }
    if n == 0 {
        0u32
    } else {
        let (k, p): (u32, u32) = if n >= 16 {
            (4, 0x8_0000)
        } else if n >= 8 {
            (3, 0x10_0000)
        } else if n >= 4 {
            (2, 0x20_0000)
        } else if n >= 2 {
            (1, 0x40_0000)
        } else {
            (0, 0x80_0000)
        };
        proof {
            lemma_msb_range(n as nat, k as nat);
            assert(p == pow2((23 - k) as nat));
        }
        (127 + k) * 0x80_0000 + ((n as u32) * p - 0x80_0000)
    }
}

} // verus!
