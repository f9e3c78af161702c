//! GPU buffers as the core sees them.
//!
//! The core never touches buffer contents; what its decisions depend on is a
//! buffer's capacity and its GPU virtual address (reallocation moves a
//! structure, so views into it must be recreated). Buffer placement is
//! modeled by [`GpuMemory`], which stands for the device's address
//! assignment: every created buffer gets a fresh address strictly past the
//! end of every earlier one, and address 0 is never assigned — it stands
//! for "no buffer", as in the device's own descriptors. The caller creates
//! the real committed resource for each buffer the core decides to allocate.

use vstd::prelude::*;

verus! {

/// A GPU-resident buffer: its capacity in bytes and its GPU virtual
/// address.
#[derive(Debug, Clone, Copy, PartialEq, Eq, Structural)]
pub struct GpuBuffer {
    pub size: u64,
    pub gpu_address: u64,
}

/// Mathematical image of [`GpuMemory`]: the lowest address not yet handed
/// out.
pub ghost struct GpuMemoryView {
    pub next_address: int,
}

impl GpuMemoryView {
    /// Addresses start past 0, which stands for "no buffer".
    pub open spec fn wf(self) -> bool {
        0 < self.next_address
    }

    /// Transition of `create_buffer`: the new buffer and the next free
    /// address, strictly past the new buffer's end.
    pub open spec fn create_t(self, size: int) -> (GpuMemoryView, GpuBuffer) {
        (
            GpuMemoryView { next_address: self.next_address + size + 1 },
            GpuBuffer { size: size as u64, gpu_address: self.next_address as u64 },
        )
    }
}

/// Model of the device's buffer placement: hands out strictly increasing
/// GPU virtual addresses, so a reallocated buffer never reuses a live
/// buffer's address.
pub struct GpuMemory {
    next_address: u64,
}

impl View for GpuMemory {
    type V = GpuMemoryView;

    closed spec fn view(&self) -> GpuMemoryView {
        GpuMemoryView { next_address: self.next_address as int }
    }
}

impl GpuMemory {
    /// A fresh address space with nothing placed in it.
    pub fn new() -> (m: GpuMemory)
        ensures
            m@ == (GpuMemoryView { next_address: 1 }),
            m@.wf(),
    {
        GpuMemory { next_address: 1 }
    }

    /// Places a buffer of `size` bytes at a fresh address. A zero-size
    /// buffer is allowed and still occupies a distinct address.
    pub fn create_buffer(&mut self, size: u64) -> (b: GpuBuffer)
        requires
            old(self)@.wf(),
            old(self)@.next_address + size + 1 <= u64::MAX,
        ensures
            final(self)@ == old(self)@.create_t(size as int).0,
            b == old(self)@.create_t(size as int).1,
            b.size == size,
            b.gpu_address == old(self)@.next_address,
            0 < b.gpu_address,
            b.gpu_address + b.size < final(self)@.next_address,
            final(self)@.wf(),
    {
        let gpu_address = self.next_address;
        self.next_address = self.next_address + size + 1;
        GpuBuffer { size, gpu_address }
    }
}

} // verus!
