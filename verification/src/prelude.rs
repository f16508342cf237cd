//! Small helpers shared by the whole library.
use vstd::prelude::*;
use vstd::arithmetic::power2::pow2;
use vstd::bits::{low_bits_mask, lemma_usize_low_bits_mask_is_mod, lemma_usize_pow2_no_overflow};
use vstd::arithmetic::div_mod::lemma_fundamental_div_mod;

verus! {

/// `x` is a power of two that fits in a `usize`.
pub open spec fn is_power_of_two(x: usize) -> bool {
    exists|k: nat| k < usize::BITS && x == #[trigger] pow2(k)
}

/// `addr` rounded down to a multiple of `align`.
pub open spec fn spec_align_down(addr: usize, align: usize) -> int {
    addr - addr % align
}

/// `addr` rounded up to a multiple of `align`.
pub open spec fn spec_align_up(addr: usize, align: usize) -> int {
    if addr % align == 0 {
        addr as int
    } else {
        addr - addr % align + align
    }
}

/// Clearing the bits of `align - 1` in `addr` takes away `addr % align`.
proof fn lemma_clear_low_bits(addr: usize, align: usize)
    requires
        is_power_of_two(align),
    ensures
        align > 0,
        addr & !((align - 1) as usize) == addr - addr % align,
{
    let k = choose|k: nat| k < usize::BITS && align == #[trigger] pow2(k);
    lemma_usize_pow2_no_overflow(k);
    vstd::arithmetic::power2::lemma_pow2_pos(k);
    lemma_usize_low_bits_mask_is_mod(addr, k);
    let m = (align - 1) as usize;
    assert(m == low_bits_mask(k) as usize);
    assert(addr & !m == addr - (addr & m) && (addr & m) <= addr) by (bit_vector);
}

/// Rounds `addr` down to the nearest multiple of `align`, a power of two.
pub fn align_down(addr: usize, align: usize) -> (r: usize)
    requires
        is_power_of_two(align),
    ensures
        r == spec_align_down(addr, align),
        r % align == 0,
        r <= addr,
        addr < r + align,
{
    proof {
        lemma_clear_low_bits(addr, align);
        lemma_fundamental_div_mod(addr as int, align as int);
        let q = addr as int / align as int;
        vstd::arithmetic::div_mod::lemma_mod_multiples_basic(q, align as int);
        vstd::arithmetic::mul::lemma_mul_is_commutative(q, align as int);
    }
    addr & !(align - 1)
}

/// Rounds `addr` up to the nearest multiple of `align`, a power of two.
pub fn align_up(addr: usize, align: usize) -> (r: usize)
    requires
        is_power_of_two(align),
        addr + (align - 1) <= usize::MAX,
    ensures
        r == spec_align_up(addr, align),
        r % align == 0,
        addr <= r,
        r < addr + align,
{
    proof {
        lemma_clear_low_bits(addr, align);
    }
    let r = align_down(addr + (align - 1), align);
    proof {
        let a = align as int;
        let x = addr as int;
        lemma_fundamental_div_mod(x, a);
        let q = x / a;
        let rem = x % a;
        // addr + align - 1 == q * align + (rem + align - 1)
        if rem == 0 {
            vstd::arithmetic::div_mod::lemma_mod_multiples_vanish(q, a - 1, a);
            vstd::arithmetic::div_mod::lemma_small_mod((a - 1) as nat, a as nat);
        } else {
            vstd::arithmetic::div_mod::lemma_mod_multiples_vanish(q + 1, rem - 1, a);
            vstd::arithmetic::div_mod::lemma_small_mod((rem - 1) as nat, a as nat);
            vstd::arithmetic::mul::lemma_mul_is_distributive_add(a, q, 1);
        }
    }
    r
}

/// An address that is already a multiple of `align` is left where it is by
/// rounding down and by rounding up, and no other address is.
pub proof fn lemma_align_fixed_points(addr: usize, align: usize)
    requires
        align > 0,
    ensures
        (addr % align == 0) <==> (spec_align_down(addr, align) == addr),
        (addr % align == 0) <==> (spec_align_up(addr, align) == addr),
{
}

/// Rounding up gives the rounded-down address, or the next multiple of
/// `align` after it where `addr` is not a multiple.
pub proof fn lemma_align_up_is_next_multiple(addr: usize, align: usize)
    requires
        align > 0,
    ensures
        spec_align_up(addr, align) == spec_align_down(addr, align) + (if addr % align == 0 {
            0
        } else {
            align as int
        }),
{
}

/// Moves the value out of its box.
pub fn unbox<T>(value: Box<T>) -> (r: T)
    ensures
        r == *value,
{
    *value
}

} // verus!
