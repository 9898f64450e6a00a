//! Size and alignment arithmetic of the PSRAM-first global allocator.
//!
//! The allocator itself calls the platform heap through FFI; what is proved
//! here is the pure arithmetic it feeds those calls: the sentinel address
//! for zero-sized layouts, rounding a size up to an over-aligned boundary,
//! and padding a size for the aligned-allocation entry point.

use vstd::prelude::*;

verus! {

/// `n` is a power of two.
pub open spec fn spec_is_power_of_two(n: int) -> bool
    decreases n,
{
    if n <= 0 {
        false
    } else if n == 1 {
        true
    } else {
        n % 2 == 0 && spec_is_power_of_two(n / 2)
    }
}

/// The smallest multiple of `align` at or above `value`.
pub open spec fn round_up(value: int, align: int) -> int
    recommends
        align >= 1,
{
    ((value + align - 1) / align) * align
}

/// Rounds `value` up to the next multiple of `align`, or `None` when the
/// padded sum does not fit a `usize`.
pub fn align_up(value: usize, align: usize) -> (r: Option<usize>)
    requires
        spec_is_power_of_two(align as int),
    ensures
        match r {
            Some(s) => s == round_up(value as int, align as int) && s % align == 0 && value <= s
                < value + align,
            None => value + align - 1 > usize::MAX,
        },
{
    let mask = align - 1;
    match value.checked_add(mask) {
        None => None,
        Some(sum) => {
            let s = sum - sum % align;
            proof {
                let q = sum as int / align as int;
                vstd::arithmetic::div_mod::lemma_fundamental_div_mod(sum as int, align as int);
                vstd::arithmetic::div_mod::lemma_mod_bound(sum as int, align as int);
                vstd::arithmetic::div_mod::lemma_mod_multiples_basic(q, align as int);
                assert(s == q * align as int) by {
                    vstd::arithmetic::mul::lemma_mul_is_commutative(align as int, q);
                }
                assert(s == round_up(value as int, align as int));
            }
            Some(s)
        },
    }
}

/// The PSRAM-first global allocator; only its layout arithmetic lives here,
/// the platform heap calls stay with the hardware glue.
pub struct PsramFirstAllocator;

impl PsramFirstAllocator {
    /// The non-null sentinel handed out for zero-sized allocations: the
    /// layout's alignment itself, which is never zero.
    pub fn non_null_for_zero(align: usize) -> (r: usize)
        requires
            spec_is_power_of_two(align as int),
        ensures
            r == align,
            r >= 1,
    {
        align
    }

    /// The size actually requested from the platform heap: at least one
    /// byte, and rounded up to the alignment when the layout is
    /// over-aligned (above the machine word); `None` when that padding
    /// overflows.
    pub fn size_for_alignment(size: usize, align: usize) -> (r: Option<usize>)
        requires
            spec_is_power_of_two(align as int),
        ensures
            ({
                let padded: int = if size == 0 {
                    1
                } else {
                    size as int
                };
                if align <= vstd::layout::size_of::<usize>() {
                    r == Some((padded as usize))
                } else {
                    match r {
                        Some(s) => s == round_up(padded, align as int),
                        None => padded + align - 1 > usize::MAX,
                    }
                }
            }),
    {
        let padded: usize = if size == 0 {
            1
        } else {
            size
        };
        if align <= core::mem::size_of::<usize>() {
            Some(padded)
        } else {
            align_up(padded, align)
        }
    }
}

} // verus!
