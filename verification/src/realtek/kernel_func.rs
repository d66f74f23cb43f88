//! Kernel services that the platform provides to the RealTek drivers.
use vstd::prelude::*;

use crate::calls::{call_no, CallNo};

verus! {

/// Kernel function interface for memory management and system services.
///
/// The platform integration layer implements it. Nothing is assumed of the
/// values it returns: the drivers check them where the interface documents
/// a failure value. Allocations, frees and waits are handed the number of
/// the call (see `CallNo`), which the platform does not need to look at.
pub trait KernelFunc {
    /// Convert virtual address to physical address.
    fn virt_to_phys(addr: usize) -> usize;

    /// Convert physical address to virtual address.
    fn phys_to_virt(addr: usize) -> usize;

    /// Allocate DMA-coherent memory (page-aligned).
    ///
    /// Returns `(virtual_address, physical_address)`; `(0, 0)` on failure.
    fn dma_alloc_coherent(pages: usize, call: &CallNo) -> (usize, usize);

    /// Free DMA-coherent memory.
    fn dma_free_coherent(vaddr: usize, pages: usize, call: &CallNo);

    /// Get current time in microseconds.
    fn get_time_us() -> u64;

    /// Busy wait for the specified duration.
    fn busy_wait(duration: core::time::Duration, call: &CallNo);
}

/// The duration of `micros` microseconds, as `Duration::from_micros` builds
/// it (a function of its argument alone).
pub uninterp spec fn duration_of_micros(micros: u64) -> core::time::Duration;

/// Trusted: `core::time::Duration::from_micros` builds the duration of
/// `micros` microseconds, the same for the same argument; it does not
/// panic.
pub assume_specification[ core::time::Duration::from_micros ](micros: u64) -> (d: core::time::Duration)
    ensures
        d == duration_of_micros(micros),
;

/// Call number `c + j` to `K` was a busy wait of `micros` microseconds.
pub open spec fn waited<K: KernelFunc>(c: int, j: int, micros: u64) -> bool {
    call_ensures(K::busy_wait, (duration_of_micros(micros), &call_no(c + j)), ())
}

/// Calls number `c` to `c + n - 1` to `K` were busy waits of `micros`
/// microseconds each.
pub open spec fn waits<K: KernelFunc>(c: int, n: int, micros: u64) -> bool {
    forall|j: int| 0 <= j < n ==> #[trigger] waited::<K>(c, j, micros)
}

} // verus!
