//! The bump allocator of the kernel heap, and address alignment.
//!
//! Allocation hands out the next suitably aligned address and moves the
//! free pointer past the block; nothing is ever freed.

use vstd::prelude::*;
use vstd::arithmetic::power2::pow2;
use vstd::bits::{lemma_usize_low_bits_mask_is_mod, low_bits_mask};

verus! {

/// `a` is a power of two that fits the machine word.
pub open spec fn is_power_of_two(a: usize) -> bool {
    exists|n: nat| n < usize::BITS && a as nat == pow2(n)
}

/// `address` rounded down to a multiple of `alignment`; alignment 0 leaves
/// it unchanged.
pub open spec fn aligned_down(address: int, alignment: int) -> int {
    if alignment == 0 {
        address
    } else {
        address - address % alignment
    }
}

/// Rounds `address` down to a multiple of the power of two `alignment`
/// (alignment 0 leaves it unchanged).
pub fn align_down(address: usize, alignment: usize) -> (r: usize)
    requires
        alignment == 0 || is_power_of_two(alignment),
    ensures
        r == aligned_down(address as int, alignment as int),
{
    if alignment == 0 {
        address
    } else {
        let mask = alignment - 1;
        proof {
            let n = choose|n: nat| n < usize::BITS && alignment as nat == pow2(n);
            lemma_usize_low_bits_mask_is_mod(address, n);
            assert(low_bits_mask(n) as usize == mask);
            assert(address & !mask == address - (address & mask)) by (bit_vector);
        }
        address & !mask
    }
}

/// Rounds `address` up to a multiple of the power of two `alignment`: it
/// rounds `address + alignment - 1` down.
pub fn align_up(address: usize, alignment: usize) -> (r: usize)
    requires
        alignment == 0 || is_power_of_two(alignment),
        1 <= address + alignment <= usize::MAX,
    ensures
        r == aligned_down(address + alignment - 1, alignment as int),
{

    align_down(address + alignment - 1, alignment)
}

/// Rounding down gives the largest multiple of the alignment not above the
/// address, and rounding up the smallest one not below it.
pub proof fn lemma_alignment(address: int, alignment: int)
    requires
        address >= 0,
        alignment > 0,
    ensures
        aligned_down(address, alignment) <= address,
        address - aligned_down(address, alignment) < alignment,
        aligned_down(address, alignment) % alignment == 0,
        aligned_down(address + alignment - 1, alignment) >= address,
        aligned_down(address + alignment - 1, alignment) - address < alignment,
        aligned_down(address + alignment - 1, alignment) % alignment == 0,
{
    assert(aligned_down(address, alignment) % alignment == 0) by (nonlinear_arith)
        requires
            alignment > 0,
            aligned_down(address, alignment) == address - address % alignment,
    ;
    let up = address + alignment - 1;
    assert(aligned_down(up, alignment) % alignment == 0) by (nonlinear_arith)
        requires
            alignment > 0,
            aligned_down(up, alignment) == up - up % alignment,
    ;
    assert(0 <= up % alignment < alignment) by (nonlinear_arith)
        requires
            alignment > 0,
    ;
    assert(0 <= address % alignment < alignment) by (nonlinear_arith)
        requires
            alignment > 0,
    ;
    assert(aligned_down(up, alignment) >= address) by (nonlinear_arith)
        requires
            alignment > 0,
            address >= 0,
            up == address + alignment - 1,
            aligned_down(up, alignment) == up - up % alignment,
            aligned_down(up, alignment) % alignment == 0,
            0 <= up % alignment < alignment,
    {
        let d = aligned_down(up, alignment);
        if d < address {
            let q = d / alignment;
            assert(d == q * alignment);
            assert(up < d + alignment);
            assert(d + alignment <= address + alignment - 1);
        }
    }
}

/// A bump allocator over the heap `[base, limit)`.
pub struct Allocator {
    next: usize,
    base: usize,
    limit: usize,
}

impl Allocator {
    /// The first free address.
    pub closed spec fn next_free(&self) -> usize {
        self.next
    }

    /// The start of the heap.
    pub closed spec fn heap_base(&self) -> usize {
        self.base
    }

    /// The end of the heap.
    pub closed spec fn heap_limit(&self) -> usize {
        self.limit
    }

    /// An allocator over the `size` bytes from `base`.
    pub fn new(base: usize, size: usize) -> (r: Self)
        requires
            base + size <= usize::MAX,
        ensures
            r.next_free() == base,
            r.heap_base() == base,
            r.heap_limit() == base + size,
    {
        Self { next: base, base: base, limit: base + size }
    }

    /// Where the next block of `size` bytes aligned to `align` starts.
    pub open spec fn block_start(&self, align: usize) -> int {
        aligned_down(self.next_free() + align - 1, align as int)
    }

    /// The block of `size` bytes aligned to `align` fits below the limit.
    pub open spec fn can_allocate(&self, size: usize, align: usize) -> bool {
        &&& align == 0 || is_power_of_two(align)
        &&& 1 <= self.next_free() + align <= usize::MAX
        &&& self.block_start(align) + size <= self.heap_limit()
    }

    /// Whether the block of `size` bytes aligned to the power of two `align`
    /// (or 0) fits below the limit (see `can_allocate`).
    pub fn has_room(&self, size: usize, align: usize) -> (r: bool)
        requires
            align == 0 || is_power_of_two(align),
        ensures
            r == self.can_allocate(size, align),
    {
        if self.next > usize::MAX - align || (self.next == 0 && align == 0) {
            return false;
        }
        let start = align_up(self.next, align);
        start <= self.limit && size <= self.limit - start
    }

    /// Hands out the block of `size` bytes that starts at the first address
    /// at or after the free pointer aligned to `align`, and moves the free
    /// pointer past it. A block that does not fit below the limit is not
    /// accepted.
    pub fn allocate(&mut self, size: usize, align: usize) -> (r: usize)
        requires
            old(self).can_allocate(size, align),
        ensures
            r == old(self).block_start(align),
            final(self).next_free() == r + size,
            final(self).heap_base() == old(self).heap_base(),
            final(self).heap_limit() == old(self).heap_limit(),
    {
        let current = self.next;
        let base = align_up(current, align);
        let limit = base.saturating_add(size);
        self.next = limit;
        base
    }
}

/// Allocations never overlap: a block starts at or after the free pointer
/// and the free pointer moves to the block's end, so every later block lies
/// after every earlier one.
pub proof fn lemma_allocation_after_free_pointer(next: int, align: int, size: int)
    requires
        next >= 0,
        align > 0,
        size >= 0,
    ensures
        aligned_down(next + align - 1, align) >= next,
        aligned_down(next + align - 1, align) + size >= next,
{
    lemma_alignment(next, align);
}

} // verus!
