//! Buffer alignment: measured, never asserted.
//!
//! The format requires the base address of every non-empty buffer to be 64-byte
//! aligned. A Python buffer is shared zero-copy only when its address already
//! qualifies; otherwise it is copied into an owned allocation, which is over-aligned
//! to 64 bytes and padded to a multiple of that alignment. A caller passing
//! `copy=False` gets an error naming the alignment actually measured instead of a copy.

use vstd::prelude::*;
use crate::errors::ErrorClass;
use crate::layout::validate::two_pow;

verus! {

/// The alignment floor the format requires of every non-empty buffer.
pub const MIN_BUFFER_ALIGNMENT: u32 = 64;

/// The strongest alignment ever reported: one page.
pub const PAGE_ALIGNMENT: u32 = 4096;

/// The exponent of the largest power of two, at most `2 ** 12`, that divides
/// `address`, searching upward from `2 ** k`.
pub open spec fn alignment_exponent_from(address: nat, k: nat) -> nat
    decreases 12 - k,
{
    if k < 12 && address % two_pow(k + 1) == 0 {
        alignment_exponent_from(address, k + 1)
    } else {
        k
    }
}

/// The alignment a buffer at `address` of `len` bytes satisfies: `1` when empty,
/// otherwise the largest power of two dividing the address, capped at a page.
pub open spec fn spec_measured_alignment(address: usize, len: usize) -> nat {
    if len == 0 {
        1
    } else {
        two_pow(alignment_exponent_from(address as nat, 0))
    }
}

proof fn lemma_two_pow_table()
    ensures
        two_pow(0) == 1,
        two_pow(1) == 2,
        two_pow(2) == 4,
        two_pow(3) == 8,
        two_pow(4) == 16,
        two_pow(5) == 32,
        two_pow(6) == 64,
        two_pow(7) == 128,
        two_pow(8) == 256,
        two_pow(9) == 512,
        two_pow(10) == 1024,
        two_pow(11) == 2048,
        two_pow(12) == 4096,
        two_pow(13) == 8192,
{
    reveal_with_fuel(two_pow, 14);
}

/// The alignment a buffer's base address actually satisfies, as a power of two: the
/// largest one dividing the address, capped at `PAGE_ALIGNMENT`; `1` for an empty
/// buffer.
pub fn measured_alignment(address: usize, len: usize) -> (r: u32)
    ensures
        r == spec_measured_alignment(address, len),
        len == 0 ==> r == 1,
        len > 0 ==> {
            &&& exists|k: nat| k <= 12 && r == two_pow(k)
            &&& (address as nat) % (r as nat) == 0
            &&& r < PAGE_ALIGNMENT ==> (address as nat) % (2 * r as nat) != 0
        },
{
    if len == 0 {
        return 1;
    }
    proof {
        lemma_two_pow_table();
    }
    let mut a: u32 = 1;
    let ghost mut k: nat = 0;
    while a < PAGE_ALIGNMENT && address % ((a as usize) * 2) == 0
        invariant
            k <= 12,
            a == two_pow(k),
            (address as nat) % (a as nat) == 0,
            alignment_exponent_from(address as nat, k) == alignment_exponent_from(
                address as nat,
                0,
            ),
            two_pow(0) == 1 && two_pow(1) == 2 && two_pow(2) == 4 && two_pow(3) == 8
                && two_pow(4) == 16 && two_pow(5) == 32 && two_pow(6) == 64 && two_pow(7)
                == 128 && two_pow(8) == 256 && two_pow(9) == 512 && two_pow(10) == 1024
                && two_pow(11) == 2048 && two_pow(12) == 4096 && two_pow(13) == 8192,
        decreases 4096 - a,
    {
        assert(k < 12);
        assert(two_pow(k + 1) == 2 * two_pow(k));
        a = a * 2;
        proof {
            k = k + 1;
        }
    }
    assert(two_pow(k + 1) == 2 * two_pow(k));
    assert(alignment_exponent_from(address as nat, k) == k);
    a
}

proof fn lemma_exponent_from_bounds(address: nat, k: nat)
    requires
        k <= 12,
    ensures
        k <= alignment_exponent_from(address, k) <= 12,
    decreases 12 - k,
{
    if k < 12 && address % two_pow(k + 1) == 0 {
        lemma_exponent_from_bounds(address, k + 1);
    }
}

/// A measured alignment is a power of two between `1` and a page.
pub proof fn lemma_measured_fits_u32(address: usize, len: usize)
    ensures
        1 <= spec_measured_alignment(address, len) <= PAGE_ALIGNMENT,
{
    if len > 0 {
        lemma_two_pow_table();
        lemma_exponent_from_bounds(address as nat, 0);
        let e = alignment_exponent_from(address as nat, 0);
        assert(1 <= two_pow(e) <= 4096) by {
            if e == 0 {
            } else if e == 1 {
            } else if e == 2 {
            } else if e == 3 {
            } else if e == 4 {
            } else if e == 5 {
            } else if e == 6 {
            } else if e == 7 {
            } else if e == 8 {
            } else if e == 9 {
            } else if e == 10 {
            } else if e == 11 {
            } else {
                assert(e == 12);
            }
        }
    }
}

/// A non-empty buffer whose address lies on a 64-byte boundary measures at least the
/// format's floor.
pub proof fn lemma_aligned_address_measures(address: usize, len: usize)
    requires
        len > 0,
        address % 64 == 0,
    ensures
        spec_measured_alignment(address, len) >= MIN_BUFFER_ALIGNMENT,
{
    lemma_two_pow_table();
    assert(address % 2 == 0 && address % 4 == 0 && address % 8 == 0 && address % 16 == 0
        && address % 32 == 0) by (bit_vector)
        requires
            address % 64 == 0,
    ;
    let a = address as nat;
    assert(alignment_exponent_from(a, 0) == alignment_exponent_from(a, 1));
    assert(alignment_exponent_from(a, 1) == alignment_exponent_from(a, 2));
    assert(alignment_exponent_from(a, 2) == alignment_exponent_from(a, 3));
    assert(alignment_exponent_from(a, 3) == alignment_exponent_from(a, 4));
    assert(alignment_exponent_from(a, 4) == alignment_exponent_from(a, 5));
    assert(alignment_exponent_from(a, 5) == alignment_exponent_from(a, 6));
    lemma_exponent_from_bounds(a, 6);
    let e = alignment_exponent_from(a, 6);
    assert(two_pow(e) >= 64) by {
        if e == 6 {
        } else if e == 7 {
        } else if e == 8 {
        } else if e == 9 {
        } else if e == 10 {
        } else if e == 11 {
        } else {
            assert(e == 12);
        }
    }
}

/// A borrowed buffer was under-aligned and the caller refused a copy; carries the
/// alignment measured.
#[derive(Clone, Copy, Debug, PartialEq, Eq, Structural)]
pub struct CopyRequired {
    pub alignment: u32,
}

impl CopyRequired {
    /// The error raises `CopyRequiredError`.
    pub fn class(&self) -> (r: ErrorClass)
        ensures
            r == ErrorClass::CopyRequired,
    {
        ErrorClass::CopyRequired
    }
}

/// Does a borrowed buffer meet the format's floor as it stands?
pub open spec fn declarable(address: usize, len: usize) -> bool {
    len == 0 || spec_measured_alignment(address, len) >= MIN_BUFFER_ALIGNMENT
}

/// Must a borrowed Python buffer be copied to be declarable, honouring the caller's
/// `copy` request? `Some(true)` always copies; `None` copies only an under-aligned
/// buffer; `Some(false)` never copies and refuses an under-aligned buffer.
pub fn must_copy(address: usize, len: usize, copy: Option<bool>) -> (r: Result<bool, CopyRequired>)
    ensures
        copy == Some(true) ==> r == Ok::<bool, CopyRequired>(true),
        copy != Some(true) && declarable(address, len) ==> r == Ok::<bool, CopyRequired>(false),
        copy == Some(false) && !declarable(address, len) ==> r == Err::<bool, CopyRequired>(
            CopyRequired { alignment: spec_measured_alignment(address, len) as u32 },
        ),
        copy is None && !declarable(address, len) ==> r == Ok::<bool, CopyRequired>(true),
        r == Ok::<bool, CopyRequired>(false) ==> declarable(address, len),
{
    if copy == Some(true) {
        return Ok(true);
    }
    let alignment = measured_alignment(address, len);
    if len == 0 || alignment >= MIN_BUFFER_ALIGNMENT {
        return Ok(false);
    }
    if copy == Some(false) {
        return Err(CopyRequired { alignment });
    }
    Ok(true)
}

/// How far into an allocation starting at `base` its first 64-byte boundary lies.
pub open spec fn spec_aligned_offset(base: usize) -> nat {
    ((64 - base % 64) % 64) as nat
}

/// The offset at which an owned buffer starts inside an allocation at `base` that has
/// 63 bytes to spare, so that the buffer's address lies on a 64-byte boundary.
pub fn aligned_offset(base: usize) -> (r: usize)
    requires
        base <= usize::MAX - 63,
    ensures
        r == spec_aligned_offset(base),
        r < 64,
        (base + r) % 64 == 0,
{
    (64 - base % 64) % 64
}

/// The size of the owned allocation that holds `len` copied bytes: padded up to a
/// multiple of the 64-byte alignment it is allocated with.
pub fn owned_allocation_size(len: usize) -> (r: usize)
    requires
        len <= isize::MAX - 63,
    ensures
        r == ((len + 63) / 64) * 64,
        r % 64 == 0,
        len <= r < len + 64,
{
    let q = (len + 63) / 64;
    assert(q * 64 <= len + 63) by (nonlinear_arith)
        requires q == (len + 63) / 64;
    assert(q * 64 >= len) by (nonlinear_arith)
        requires q == (len + 63) / 64;
    q * 64
}

} // verus!
