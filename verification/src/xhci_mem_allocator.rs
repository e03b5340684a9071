//! The memory that the controller and the driver share.
//!
//! The driver does not allocate: its user hands it an allocator of memory
//! that the controller can reach, mapped uncached.

use vstd::arithmetic::power2::{lemma_pow2_pos, pow2};
use vstd::prelude::*;

verus! {

/// Whether `n` is `2^k` for some `k` below 64.
pub open spec fn is_power_of_two(n: u64) -> bool {
    exists|k: nat| k < 64 && n == #[trigger] pow2(k)
}

/// What a region of shared memory must be like.
#[derive(Debug, Clone, Copy, PartialEq, Eq, Structural)]
pub struct AllocRequest {
    /// Size in bytes; not zero, and no greater than `boundary`.  It need not
    /// be a multiple of `align`.
    pub size: u64,
    /// The region's physical address is a multiple of this power of two,
    /// which is no greater than `boundary`.
    pub align: u64,
    /// The region lies between two neighbouring multiples of this power of
    /// two.
    pub boundary: u64,
}

impl AllocRequest {
    /// The conditions on a request.
    pub open spec fn wf(&self) -> bool {
        &&& 0 < self.size <= self.boundary
        &&& is_power_of_two(self.align)
        &&& is_power_of_two(self.boundary)
        &&& self.align <= self.boundary
    }
}

/// A region of shared memory, by its two addresses: the one the controller
/// uses and the one the driver uses.  Neither is computed from the other.
#[derive(Debug, Clone, Copy, PartialEq, Eq, Structural)]
pub struct AllocResponse {
    /// Physical address of the first byte.
    pub phys_addr: u64,
    /// Address of the first byte in the driver's address space; not zero.
    pub virt_addr: usize,
}

impl AllocResponse {
    /// Whether this region is one that `request` asks for: aligned, within
    /// one boundary block, and inside both address spaces.
    pub open spec fn satisfies(&self, request: AllocRequest) -> bool {
        &&& self.phys_addr % request.align == 0
        &&& self.phys_addr / request.boundary == (self.phys_addr + request.size - 1)
            / (request.boundary as int)
        &&& self.phys_addr + request.size <= u64::MAX + 1
        &&& self.virt_addr != 0
        &&& self.virt_addr + request.size <= usize::MAX + 1
    }

    /// Whether this region is one that `request` asks for.
    pub fn check(&self, request: &AllocRequest) -> (r: bool)
        requires
            request.wf(),
        ensures
            r == self.satisfies(*request),
    {
        proof {
            lemma_power_of_two_positive(request.align);
            lemma_power_of_two_positive(request.boundary);
        }
        if self.virt_addr == 0 {
            return false;
        }
        if request.size - 1 > u64::MAX - self.phys_addr {
            return false;
        }
        if request.size - 1 > (usize::MAX - self.virt_addr) as u64 {
            return false;
        }
        self.phys_addr % request.align == 0 && self.phys_addr / request.boundary == (
        self.phys_addr + (request.size - 1)) / request.boundary
    }
}

/// A power of two is not zero.
pub proof fn lemma_power_of_two_positive(n: u64)
    requires
        is_power_of_two(n),
    ensures
        n > 0,
{
    let k = choose|k: nat| k < 64 && n == #[trigger] pow2(k);
    lemma_pow2_pos(k);
}

/// An allocator of shared memory.
///
/// Whoever implements it answers for the memory: it is physically
/// contiguous, mapped into the driver's address space as strongly ordered
/// uncached memory, and handed out once.  Whether a region is the one that
/// the request describes is not taken on trust: the driver tests it with
/// `AllocResponse::check` before it uses the region.
pub trait XhciMemAllocator {
    /// Allocates a region for `request`.
    fn allocate(&mut self, request: AllocRequest) -> (response: AllocResponse)
        requires
            request.wf(),
    ;
}

} // verus!
