//! The alignment that a buffer needs in memory.
//!
//! The driver reports an alignment for each buffer, and the hardware demands
//! a least alignment for some uses. A buffer needs the greatest of those that
//! apply to it.

use vstd::prelude::*;
use vstd::arithmetic::div_mod::lemma_basic_div;
use vstd::arithmetic::div_mod::lemma_fundamental_div_mod;
use vstd::arithmetic::div_mod::lemma_fundamental_div_mod_converse;
use vstd::arithmetic::div_mod::lemma_mod_multiples_basic;
use vstd::arithmetic::power2::is_pow2;
use crate::buffer::usage::BufferUsage;
use crate::device::Limits;

verus! {

/// The greater of two alignments.
pub open spec fn wider(a: u64, b: u64) -> u64 {
    if a >= b {
        a
    } else {
        b
    }
}

/// The least alignment that the hardware demands of a buffer that may be
/// used as a texel buffer, where `usage` allows that; else none.
pub open spec fn texel_minimum(usage: BufferUsage, limits: Limits) -> u64 {
    if usage.uniform_texel_buffer || usage.storage_texel_buffer {
        limits.min_texel_buffer_offset_alignment
    } else {
        0
    }
}

/// The least alignment that the hardware demands of a buffer that may be
/// used as a storage buffer, where `usage` allows that; else none.
pub open spec fn storage_minimum(usage: BufferUsage, limits: Limits) -> u64 {
    if usage.storage_buffer {
        limits.min_storage_buffer_offset_alignment
    } else {
        0
    }
}

/// The least alignment that the hardware demands of a buffer that may be
/// used as a uniform buffer, where `usage` allows that; else none.
pub open spec fn uniform_minimum(usage: BufferUsage, limits: Limits) -> u64 {
    if usage.uniform_buffer {
        limits.min_uniform_buffer_offset_alignment
    } else {
        0
    }
}

/// The alignment that a buffer needs: the greatest of what the driver
/// reported for it and of the minimums that the hardware demands for the
/// uses that the buffer allows.
pub open spec fn effective_alignment(reported: u64, usage: BufferUsage, limits: Limits) -> u64 {
    wider(
        wider(wider(reported, texel_minimum(usage, limits)), storage_minimum(usage, limits)),
        uniform_minimum(usage, limits),
    )
}

/// Of two powers of two, the greater is a multiple of the lesser.
pub proof fn lemma_power_of_two_divides(a: int, b: int)
    requires
        is_pow2(a),
        is_pow2(b),
        a <= b,
    ensures
        b % a == 0,
    decreases a,
{
    reveal(is_pow2);
    if a != 1 {
        let half_a = a / 2;
        let half_b = b / 2;
        lemma_power_of_two_divides(half_a, half_b);
        let q = half_b / half_a;
        lemma_fundamental_div_mod(half_b, half_a);
        assert(half_b == half_a * q);
        assert(b == q * a) by (nonlinear_arith)
            requires
                half_b == half_a * q,
                a == 2 * half_a,
                b == 2 * half_b,
        ;
        lemma_mod_multiples_basic(q, a);
    }
}

/// `value` rounded up to a multiple of `alignment`.
pub open spec fn rounded_up(value: int, alignment: int) -> int {
    alignment * (1 + (value - 1) / alignment)
}

/// Among powers of two, as the alignments of the driver are, the greater of
/// two alignments is the one rounded up to a multiple of the other: widening
/// to the greatest loses nothing against rounding up.
pub proof fn lemma_wider_is_rounded_up(value: u64, alignment: u64)
    requires
        is_pow2(value as int),
        is_pow2(alignment as int),
    ensures
        wider(value, alignment) == rounded_up(value as int, alignment as int),
{
    reveal(is_pow2);
    let v = value as int;
    let a = alignment as int;
    if a <= v {
        lemma_power_of_two_divides(a, v);
        let k = v / a;
        lemma_fundamental_div_mod(v, a);
        assert(v == a * k);
        assert(v - 1 == (k - 1) * a + (a - 1)) by (nonlinear_arith)
            requires
                v == a * k,
        ;
        lemma_fundamental_div_mod_converse(v - 1, a, k - 1, a - 1);
        assert(a * (1 + (k - 1)) == v) by (nonlinear_arith)
            requires
                v == a * k,
        ;
    } else {
        lemma_basic_div(v - 1, a);
        let q = (v - 1) / a;
        assert(a * (1 + q) == a) by (nonlinear_arith)
            requires
                q == 0,
        ;
    }
}

/// The effective alignment is the least value that is no less than any of
/// the alignments that apply.
pub proof fn lemma_effective_alignment_is_maximum(
    reported: u64,
    usage: BufferUsage,
    limits: Limits,
)
    ensures
        ({
            let e = effective_alignment(reported, usage, limits);
            &&& e >= reported
            &&& e >= texel_minimum(usage, limits)
            &&& e >= storage_minimum(usage, limits)
            &&& e >= uniform_minimum(usage, limits)
            &&& e == reported || e == texel_minimum(usage, limits) || e == storage_minimum(
                usage,
                limits,
            ) || e == uniform_minimum(usage, limits)
        }),
{
}

/// A multiple of a multiple of `a` is a multiple of `a`.
pub proof fn lemma_multiple_of_multiple(x: int, a: int, b: int)
    requires
        0 < a,
        0 < b,
        b % a == 0,
        x % b == 0,
    ensures
        x % a == 0,
{
    let k = x / b;
    let m = b / a;
    lemma_fundamental_div_mod(x, b);
    lemma_fundamental_div_mod(b, a);
    assert(x == (k * m) * a) by (nonlinear_arith)
        requires
            x == b * k,
            b == a * m,
    ;
    lemma_mod_multiples_basic(k * m, a);
}

/// Where every alignment that applies is a power of two, as the driver
/// promises, the effective alignment is a power of two and a multiple of
/// each of them, and so is every offset that is a multiple of the effective
/// alignment.
pub proof fn lemma_effective_alignment_satisfies_all(
    reported: u64,
    usage: BufferUsage,
    limits: Limits,
    offset: usize,
)
    requires
        is_pow2(reported as int),
        texel_minimum(usage, limits) != 0 ==> is_pow2(texel_minimum(usage, limits) as int),
        storage_minimum(usage, limits) != 0 ==> is_pow2(storage_minimum(usage, limits) as int),
        uniform_minimum(usage, limits) != 0 ==> is_pow2(uniform_minimum(usage, limits) as int),
    ensures
        ({
            let e = effective_alignment(reported, usage, limits);
            &&& is_pow2(e as int)
            &&& e % reported == 0
            &&& texel_minimum(usage, limits) != 0 ==> e % texel_minimum(usage, limits) == 0
            &&& storage_minimum(usage, limits) != 0 ==> e % storage_minimum(usage, limits) == 0
            &&& uniform_minimum(usage, limits) != 0 ==> e % uniform_minimum(usage, limits) == 0
            &&& aligned_to(offset, e) ==> {
                &&& aligned_to(offset, reported)
                &&& texel_minimum(usage, limits) != 0 ==> aligned_to(
                    offset,
                    texel_minimum(usage, limits),
                )
                &&& storage_minimum(usage, limits) != 0 ==> aligned_to(
                    offset,
                    storage_minimum(usage, limits),
                )
                &&& uniform_minimum(usage, limits) != 0 ==> aligned_to(
                    offset,
                    uniform_minimum(usage, limits),
                )
            }
        }),
{
    reveal(is_pow2);
    let e = effective_alignment(reported, usage, limits);
    let t = texel_minimum(usage, limits);
    let s = storage_minimum(usage, limits);
    let u = uniform_minimum(usage, limits);
    lemma_power_of_two_divides(reported as int, e as int);
    if aligned_to(offset, e) {
        lemma_multiple_of_multiple(offset as int, reported as int, e as int);
    }
    if t != 0 {
        lemma_power_of_two_divides(t as int, e as int);
        if aligned_to(offset, e) {
            lemma_multiple_of_multiple(offset as int, t as int, e as int);
        }
    }
    if s != 0 {
        lemma_power_of_two_divides(s as int, e as int);
        if aligned_to(offset, e) {
            lemma_multiple_of_multiple(offset as int, s as int, e as int);
        }
    }
    if u != 0 {
        lemma_power_of_two_divides(u as int, e as int);
        if aligned_to(offset, e) {
            lemma_multiple_of_multiple(offset as int, u as int, e as int);
        }
    }
}

/// Widens the alignment that the driver reported for a buffer to the
/// minimums that the hardware demands for the uses of the buffer.
pub fn widen_alignment(reported: u64, usage: BufferUsage, limits: &Limits) -> (a: u64)
    ensures
        a == effective_alignment(reported, usage, *limits),
{
    let mut alignment = reported;
    if usage.uniform_texel_buffer || usage.storage_texel_buffer {
        if limits.min_texel_buffer_offset_alignment > alignment {
            alignment = limits.min_texel_buffer_offset_alignment;
        }
    }
    if usage.storage_buffer {
        if limits.min_storage_buffer_offset_alignment > alignment {
            alignment = limits.min_storage_buffer_offset_alignment;
        }
    }
    if usage.uniform_buffer {
        if limits.min_uniform_buffer_offset_alignment > alignment {
            alignment = limits.min_uniform_buffer_offset_alignment;
        }
    }
    alignment
}

/// Whether `offset` is a multiple of `alignment`. Nothing is a multiple of
/// an alignment of zero.
pub open spec fn aligned_to(offset: usize, alignment: u64) -> bool {
    alignment != 0 && (offset as int) % (alignment as int) == 0
}

} // verus!
