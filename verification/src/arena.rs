//! Lock-free bump arena: every dynamic allocation in the kernel is carved
//! from one fixed backing region by moving a high-water counter downward.
//! Memory is never reclaimed; `deallocate` is a defined no-op.

use vstd::prelude::*;
use vstd::arithmetic::power2::lemma2_to64;
use vstd::arithmetic::power2::lemma2_to64_rest;
use vstd::arithmetic::power2::lemma_pow2_strictly_increases;
use vstd::arithmetic::power2::lemma_pow2_unfold;
use vstd::arithmetic::power2::pow2;
use vstd::bits::lemma_usize_low_bits_mask_is_mod;
use vstd::bits::low_bits_mask;

verus! {

/// Size in bytes of the default backing region.
pub const ARENA_SIZE: usize = 128 * 1024;

/// Largest alignment the arena will honour.
pub const MAX_SUPPORTED_ALIGN: usize = 4096;

/// Why an allocation request was refused.
#[derive(Clone, Copy, Debug, PartialEq, Eq, Structural)]
pub enum AllocError {
    /// The requested size exceeds the bytes still unclaimed.
    AllocationExhausted,
    /// The requested alignment exceeds the configured maximum.
    UnsupportedAlignment,
}

/// What the arena's owner wants done when a request cannot be served:
/// halt the kernel at once, or hand the failure back to the caller.
/// The arena itself always signals; an `Abort` policy is carried out by
/// the embedding kernel, which has the halt instruction.
#[derive(Clone, Copy, Debug, PartialEq, Eq, Structural)]
pub enum FailurePolicy {
    Abort,
    Signal,
}

/// True when `a` is a power of two (and hence nonzero).
pub open spec fn is_power_of_two(a: usize) -> bool {
    a != 0 && (a & ((a - 1) as usize)) == 0
}

/// `x` rounded down to the nearest multiple of `a`, for `a` a power of two.
pub open spec fn align_down(x: usize, a: usize) -> usize {
    x & !((a - 1) as usize)
}

/// Runtime check for the power-of-two precondition, for callers handed an
/// alignment they do not control.
pub fn power_of_two(a: usize) -> (r: bool)
    ensures
        r == is_power_of_two(a),
{
    a != 0 && (a & (a - 1)) == 0
}

/// Rounding down to a power of two never increases the value.
pub proof fn lemma_align_down_le(x: usize, a: usize)
    requires
        a != 0,
    ensures
        align_down(x, a) <= x,
{
    assert((x & !((a - 1) as usize)) <= x) by (bit_vector);
}

/// A power of two is `pow2` of some exponent below the machine word width.
proof fn lemma_pow2_exponent(a: usize)
    requires
        is_power_of_two(a),
    ensures
        exists|n: nat| n < usize::BITS && pow2(n) == a as nat,
    decreases a,
{
    lemma2_to64();
    lemma2_to64_rest();
    if a == 1 {
        assert(0 < usize::BITS && pow2(0) == 1nat);
    } else {
        assert((a / 2) != 0 && ((a / 2) & (((a / 2) - 1) as usize)) == 0 && a == 2 * (a / 2))
            by (bit_vector)
            requires
                a != 0,
                a != 1,
                (a & ((a - 1) as usize)) == 0,
        ;
        lemma_pow2_exponent(a / 2);
        let m = choose|m: nat| m < usize::BITS && pow2(m) == (a / 2) as nat;
        lemma_pow2_unfold(m + 1);
        assert(pow2(m + 1) == a as nat);
        if m + 1 >= usize::BITS {
            if m + 1 > usize::BITS {
                lemma_pow2_strictly_increases(usize::BITS as nat, m + 1);
            }
            assert(pow2(usize::BITS as nat) > usize::MAX);
            assert(false);
        }
    }
}

/// Rounding down to a power of two yields a multiple of it.
pub proof fn lemma_align_down_aligned(x: usize, a: usize)
    requires
        is_power_of_two(a),
    ensures
        align_down(x, a) % a == 0,
{
    lemma_pow2_exponent(a);
    let n = choose|n: nat| n < usize::BITS && pow2(n) == a as nat;
    lemma_usize_low_bits_mask_is_mod(x & !((a - 1) as usize), n);
    assert(low_bits_mask(n) as usize == (a - 1) as usize);
    assert((x & !((a - 1) as usize)) & ((a - 1) as usize) == 0) by (bit_vector);
}

/// Rounding down to alignment one changes nothing.
pub proof fn lemma_align_down_one(x: usize)
    ensures
        align_down(x, 1) == x,
{
    assert((x & !((1usize - 1) as usize)) == x) by (bit_vector);
}

/// A half-open byte range `[start, start + len)` inside the arena.
pub open spec fn ranges_disjoint(r1: (usize, usize), r2: (usize, usize)) -> bool {
    r1.0 + r1.1 <= r2.0 || r2.0 + r2.1 <= r1.0
}

/// Fixed-capacity byte region plus a "bytes still unclaimed" counter.
/// Blocks are carved from the tail downward: a granted offset equals the
/// new remaining count, so everything at or above `remaining` is spoken for.
pub struct MemoryArena {
    pub capacity: usize,
    pub remaining: usize,
    pub max_align: usize,
    pub policy: FailurePolicy,
}

/// One `(size, align)` allocation request, for stating laws about
/// whole sequences of requests.
pub struct AllocRequest {
    pub size: usize,
    pub align: usize,
}

impl MemoryArena {
    pub open spec fn spec_capacity(self) -> usize {
        self.capacity
    }

    pub open spec fn spec_remaining(self) -> usize {
        self.remaining
    }

    pub open spec fn spec_max_align(self) -> usize {
        self.max_align
    }

    pub open spec fn spec_policy(self) -> FailurePolicy {
        self.policy
    }

    /// The counter never exceeds the capacity, and the configured maximum
    /// alignment is a power of two.
    pub open spec fn wf(self) -> bool {
        self.remaining <= self.capacity && is_power_of_two(self.max_align)
    }

    /// What `allocate` returns on this state.
    pub open spec fn alloc_outcome(self, size: usize, align: usize) -> Result<usize, AllocError> {
        if align > self.max_align {
            Err(AllocError::UnsupportedAlignment)
        } else if size > self.remaining {
            Err(AllocError::AllocationExhausted)
        } else {
            Ok(align_down((self.remaining - size) as usize, align))
        }
    }

    /// The state `allocate` leaves behind: on success the counter drops to
    /// the granted offset, on failure nothing changes.
    pub open spec fn alloc_next(self, size: usize, align: usize) -> MemoryArena {
        match self.alloc_outcome(size, align) {
            Ok(offset) => MemoryArena {
                capacity: self.capacity,
                remaining: offset,
                max_align: self.max_align,
                policy: self.policy,
            },
            Err(_) => self,
        }
    }

    /// The state `deallocate` leaves behind: exactly the old one.
    pub open spec fn dealloc_next(self, offset: usize, size: usize) -> MemoryArena {
        self
    }

    pub fn new(capacity: usize, max_align: usize, policy: FailurePolicy) -> (a: MemoryArena)
        requires
            is_power_of_two(max_align),
        ensures
            a.spec_capacity() == capacity,
            a.spec_remaining() == capacity,
            a.spec_max_align() == max_align,
            a.spec_policy() == policy,
            a.wf(),
    {
        MemoryArena { capacity, remaining: capacity, max_align, policy }
    }

    pub fn capacity(&self) -> (r: usize)
        ensures
            r == self.spec_capacity(),
    {
        self.capacity
    }

    pub fn remaining(&self) -> (r: usize)
        ensures
            r == self.spec_remaining(),
    {
        self.remaining
    }

    pub fn max_align(&self) -> (r: usize)
        ensures
            r == self.spec_max_align(),
    {
        self.max_align
    }

    pub fn policy(&self) -> (r: FailurePolicy)
        ensures
            r == self.spec_policy(),
    {
        self.policy
    }

    /// Serve a `(size, align)` request. On success the returned offset is
    /// the start of a fresh `size`-byte block: it is `align`-aligned, the
    /// block lies entirely below the bytes granted before it, and the
    /// remaining counter drops to the offset. On failure the arena is
    /// unchanged: an oversized alignment is refused outright, and once
    /// `size` exceeds the remaining bytes the request deterministically
    /// fails with `AllocationExhausted`.
    pub fn allocate(&mut self, size: usize, align: usize) -> (r: Result<usize, AllocError>)
        requires
            old(self).wf(),
            is_power_of_two(align),
        ensures
            r == old(self).alloc_outcome(size, align),
            *final(self) == old(self).alloc_next(size, align),
            final(self).wf(),
            r matches Ok(offset) ==> offset + size <= old(self).spec_remaining()
                && offset % align == 0 && final(self).spec_remaining() == offset,
            r is Err ==> *final(self) == *old(self),
    {
        if align > self.max_align {
            return Err(AllocError::UnsupportedAlignment);
        }
        if size > self.remaining {
            return Err(AllocError::AllocationExhausted);
        }
        let mask: usize = !(align - 1);
        let candidate: usize = (self.remaining - size) & mask;
        proof {
            lemma_align_down_le((self.remaining - size) as usize, align);
            lemma_align_down_aligned((self.remaining - size) as usize, align);
        }
        self.remaining = candidate;
        Ok(candidate)
    }

    /// The arena never reclaims memory: freeing a block is a defined no-op,
    /// and in particular never increases the remaining counter.
    pub fn deallocate(&mut self, offset: usize, size: usize)
        ensures
            *final(self) == old(self).dealloc_next(offset, size),
            *final(self) == *old(self),
    {
    }
}

/// Every request in the sequence succeeds when served in order.
pub open spec fn all_grantable(a: MemoryArena, reqs: Seq<AllocRequest>) -> bool
    decreases reqs.len(),
{
    reqs.len() == 0 || {
        &&& is_power_of_two(reqs[0].align)
        &&& reqs[0].align <= a.spec_max_align()
        &&& reqs[0].size <= a.spec_remaining()
        &&& all_grantable(a.alloc_next(reqs[0].size, reqs[0].align), reqs.drop_first())
    }
}

/// The byte ranges granted by serving the requests in order.
pub open spec fn granted_ranges(a: MemoryArena, reqs: Seq<AllocRequest>) -> Seq<(usize, usize)>
    decreases reqs.len(),
{
    if reqs.len() == 0 {
        Seq::empty()
    } else {
        seq![(a.alloc_outcome(reqs[0].size, reqs[0].align)->Ok_0, reqs[0].size)]
            + granted_ranges(a.alloc_next(reqs[0].size, reqs[0].align), reqs.drop_first())
    }
}

/// Every granted range lies below the remaining counter the run started with.
proof fn lemma_granted_ranges_below(a: MemoryArena, reqs: Seq<AllocRequest>)
    requires
        all_grantable(a, reqs),
    ensures
        granted_ranges(a, reqs).len() == reqs.len(),
        forall|k: int| 0 <= k < reqs.len()
            ==> (#[trigger] granted_ranges(a, reqs)[k]).0 + granted_ranges(a, reqs)[k].1
                <= a.spec_remaining(),
    decreases reqs.len(),
{
    if reqs.len() > 0 {
        let size = reqs[0].size;
        let align = reqs[0].align;
        let next = a.alloc_next(size, align);
        lemma_align_down_le((a.spec_remaining() - size) as usize, align);
        lemma_granted_ranges_below(next, reqs.drop_first());
        assert forall|k: int| 0 <= k < reqs.len() implies (#[trigger] granted_ranges(a, reqs)[k]).0
            + granted_ranges(a, reqs)[k].1 <= a.spec_remaining() by {
            if k > 0 {
                assert(granted_ranges(a, reqs)[k] == granted_ranges(next, reqs.drop_first())[k - 1]);
            }
        }
    }
}

/// Successful allocations hand out pairwise disjoint byte ranges: for any
/// sequence of requests with power-of-two alignments within the configured
/// maximum and sizes within the remaining capacity at the time of each
/// request, no two granted blocks overlap.
pub proof fn lemma_allocations_pairwise_disjoint(a: MemoryArena, reqs: Seq<AllocRequest>)
    requires
        all_grantable(a, reqs),
    ensures
        granted_ranges(a, reqs).len() == reqs.len(),
        forall|i: int, j: int| 0 <= i < j < reqs.len()
            ==> ranges_disjoint(
                #[trigger] granted_ranges(a, reqs)[i],
                #[trigger] granted_ranges(a, reqs)[j],
            ),
    decreases reqs.len(),
{
    lemma_granted_ranges_below(a, reqs);
    if reqs.len() > 0 {
        let size = reqs[0].size;
        let align = reqs[0].align;
        let next = a.alloc_next(size, align);
        lemma_align_down_le((a.spec_remaining() - size) as usize, align);
        lemma_granted_ranges_below(next, reqs.drop_first());
        lemma_allocations_pairwise_disjoint(next, reqs.drop_first());
        assert forall|i: int, j: int| 0 <= i < j < reqs.len() implies ranges_disjoint(
            #[trigger] granted_ranges(a, reqs)[i],
            #[trigger] granted_ranges(a, reqs)[j],
        ) by {
            if i == 0 {
                assert(granted_ranges(a, reqs)[j] == granted_ranges(next, reqs.drop_first())[j - 1]);
            } else {
                assert(granted_ranges(a, reqs)[i] == granted_ranges(next, reqs.drop_first())[i - 1]);
                assert(granted_ranges(a, reqs)[j] == granted_ranges(next, reqs.drop_first())[j - 1]);
            }
        }
    }
}

/// Deallocation reclaims nothing: allocate `n` bytes, free them, allocate
/// `n` bytes again, and the second block is disjoint from the first — and
/// at no step does the remaining counter grow.
pub proof fn lemma_no_reclamation(a: MemoryArena, n: usize)
    requires
        a.wf(),
        n + n <= a.spec_remaining(),
    ensures
        ({
            let o1 = a.alloc_outcome(n, 1)->Ok_0;
            let a1 = a.alloc_next(n, 1);
            let a2 = a1.dealloc_next(o1, n);
            let o2 = a2.alloc_outcome(n, 1)->Ok_0;
            &&& a.alloc_outcome(n, 1) is Ok
            &&& a2.spec_remaining() <= a1.spec_remaining()
            &&& a2.alloc_outcome(n, 1) is Ok
            &&& ranges_disjoint((o1, n), (o2, n))
        }),
{
    lemma_align_down_one((a.spec_remaining() - n) as usize);
    let a1 = a.alloc_next(n, 1);
    lemma_align_down_one((a1.spec_remaining() - n) as usize);
}

} // verus!
