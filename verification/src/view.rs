//! Descriptor view heaps: typed bump allocators over a fixed-capacity
//! descriptor table.
//!
//! A heap hands out stable handles in monotonically increasing allocation
//! order and never frees or reassigns them; it only grows until capacity,
//! which is a build-time constant. Exceeding capacity is a precondition
//! violation, not a recoverable error. Writing the view description into the
//! descriptor table at the returned slot is the caller's device action; the
//! heap's start address and descriptor increment are device-reported values
//! handed in at build time.

use vstd::prelude::*;

verus! {

use vstd::arithmetic::mul::lemma_mul_inequality;

/// Constant buffer view handle: a stable index into the shader-visible
/// resource table.
pub struct Cbv {
    pub handle: u32,
}

impl Cbv {
    pub fn handle(&self) -> (r: u32)
        ensures
            r == self.handle,
    {
        self.handle
    }
}

/// Shader resource view handle: a stable index into the shader-visible
/// resource table.
pub struct Srv {
    pub handle: u32,
}

impl Srv {
    pub fn handle(&self) -> (r: u32)
        ensures
            r == self.handle,
    {
        self.handle
    }
}

/// Unordered access view handle: a stable index into the shader-visible
/// resource table.
pub struct Uav {
    pub handle: u32,
}

impl Uav {
    pub fn handle(&self) -> (r: u32)
        ensures
            r == self.handle,
    {
        self.handle
    }
}

/// Render target view: addressed by its slot's CPU descriptor handle.
pub struct Rtv {
    pub cpu_handle: usize,
}

impl Rtv {
    pub fn cpu_handle(&self) -> (r: usize)
        ensures
            r == self.cpu_handle,
    {
        self.cpu_handle
    }
}

/// Depth stencil view: addressed by its slot's CPU descriptor handle.
pub struct Dsv {
    pub cpu_handle: usize,
}

impl Dsv {
    pub fn cpu_handle(&self) -> (r: usize)
        ensures
            r == self.cpu_handle,
    {
        self.cpu_handle
    }
}

/// Mathematical image of a descriptor heap.
pub ghost struct HeapView {
    pub heap_start: int,
    pub view_size: int,
    pub view_count: int,
    pub capacity: int,
}

impl HeapView {
    /// Well-formedness: a positive capacity never exceeded, and slot
    /// addresses that stay within the address space.
    pub open spec fn wf(self) -> bool {
        &&& 0 < self.capacity
        &&& 0 <= self.view_count <= self.capacity
        &&& 0 <= self.heap_start
        &&& 0 <= self.view_size
        &&& self.heap_start + self.view_size * self.capacity <= usize::MAX
    }

    /// Transition of an allocation: the next free slot index is handed out
    /// and the allocation count advances by one.
    pub open spec fn allocate_t(self) -> (HeapView, int) {
        (HeapView { view_count: self.view_count + 1, ..self }, self.view_count)
    }

    /// The heap state and the handed-out slot indices, in call order, after
    /// `k` allocations.
    pub open spec fn run_allocates(self, k: nat) -> (HeapView, Seq<int>)
        decreases k,
    {
        if k == 0 {
            (self, Seq::empty())
        } else {
            let (h, handles) = self.run_allocates((k - 1) as nat);
            (h.allocate_t().0, handles.push(h.allocate_t().1))
        }
    }
}

/// Law (view-handle monotonic allocation): K allocations from a heap with
/// current count c hand out exactly the indices c, c + 1, ..., c + K - 1 in
/// call order — for a fresh heap the distinct handles 0 .. K - 1 — and
/// leave the count at c + K, so allocation beyond capacity is ruled out by
/// the capacity precondition, never by reuse.
pub proof fn lemma_view_handles_monotonic(h: HeapView, k: nat, i: int)
    requires
        0 <= i < k,
    ensures
        h.run_allocates(k).1.len() == k,
        h.run_allocates(k).1[i] == h.view_count + i,
        h.run_allocates(k).0.view_count == h.view_count + k,
        h.run_allocates(k).0.capacity == h.capacity,
    decreases k,
{
    lemma_run_allocates_len(h, k);
    lemma_run_allocates_len(h, (k - 1) as nat);
    if i < k - 1 {
        lemma_view_handles_monotonic(h, (k - 1) as nat, i);
    } else if k > 1 {
        lemma_view_handles_monotonic(h, (k - 1) as nat, i - 1);
    }
}

proof fn lemma_run_allocates_len(h: HeapView, k: nat)
    ensures
        h.run_allocates(k).1.len() == k,
        h.run_allocates(k).0.view_count == h.view_count + k,
        h.run_allocates(k).0.capacity == h.capacity,
    decreases k,
{
    if k > 0 {
        lemma_run_allocates_len(h, (k - 1) as nat);
    }
}

/// The shared bump-allocation core of every descriptor heap kind.
pub struct DesciptorHeap {
    heap_start: usize,
    view_size: u32,
    view_count: u32,
    capacity: u32,
}

impl View for DesciptorHeap {
    type V = HeapView;

    closed spec fn view(&self) -> HeapView {
        HeapView {
            heap_start: self.heap_start as int,
            view_size: self.view_size as int,
            view_count: self.view_count as int,
            capacity: self.capacity as int,
        }
    }
}

impl DesciptorHeap {
    /// A fresh heap over a descriptor table of `capacity` slots starting at
    /// `heap_start`, each slot `view_size` bytes; both device-reported.
    pub fn build(capacity: u32, view_size: u32, heap_start: usize) -> (h: DesciptorHeap)
        requires
            capacity > 0,
            heap_start + view_size * capacity <= usize::MAX,
        ensures
            h@ == (HeapView {
                heap_start: heap_start as int,
                view_size: view_size as int,
                view_count: 0,
                capacity: capacity as int,
            }),
            h@.wf(),
    {
        DesciptorHeap { heap_start, view_size, view_count: 0, capacity }
    }

    /// Hands out the next free slot: its stable index and the CPU descriptor
    /// handle addressing it. Requires free capacity; the heap is append-only
    /// for its lifetime.
    pub fn allocate(&mut self) -> (r: (u32, usize))
        requires
            old(self)@.wf(),
            old(self)@.view_count < old(self)@.capacity,
        ensures
            final(self)@ == old(self)@.allocate_t().0,
            r.0 == old(self)@.allocate_t().1,
            r.0 == old(self)@.view_count,
            r.1 == old(self)@.heap_start + old(self)@.view_size * old(self)@.view_count,
            final(self)@.wf(),
    {
        proof {
            lemma_mul_inequality(
                self@.view_count,
                self@.capacity,
                self@.view_size,
            );
        }
        let cpu_handle: usize = self.heap_start + (self.view_size as usize) * (self.view_count
            as usize);
        let index = self.view_count;
        self.view_count = self.view_count + 1;
        (index, cpu_handle)
    }

    /// Number of views allocated so far.
    pub fn view_count(&self) -> (r: u32)
        ensures
            r == self@.view_count,
    {
        self.view_count
    }

    /// Total slot capacity, fixed at build time.
    pub fn capacity(&self) -> (r: u32)
        ensures
            r == self@.capacity,
    {
        self.capacity
    }
}

/// Shader-visible heap for constant-buffer, shader-resource and
/// unordered-access views.
pub struct CbvSrvUavHeap {
    heap: DesciptorHeap,
}

impl View for CbvSrvUavHeap {
    type V = HeapView;

    closed spec fn view(&self) -> HeapView {
        self.heap@
    }
}

impl CbvSrvUavHeap {
    pub fn build(capacity: u32, view_size: u32, heap_start: usize) -> (h: CbvSrvUavHeap)
        requires
            capacity > 0,
            heap_start + view_size * capacity <= usize::MAX,
        ensures
            h@ == (HeapView {
                heap_start: heap_start as int,
                view_size: view_size as int,
                view_count: 0,
                capacity: capacity as int,
            }),
            h@.wf(),
    {
        CbvSrvUavHeap { heap: DesciptorHeap::build(capacity, view_size, heap_start) }
    }

    /// Allocates the slot for a constant buffer view; the caller writes the
    /// view description at the slot.
    pub fn create_cbv(&mut self) -> (r: Cbv)
        requires
            old(self)@.wf(),
            old(self)@.view_count < old(self)@.capacity,
        ensures
            final(self)@ == old(self)@.allocate_t().0,
            r.handle == old(self)@.view_count,
            final(self)@.wf(),
    {
        let (handle, _) = self.heap.allocate();
        Cbv { handle }
    }

    /// Allocates the slot for a shader resource view; the caller writes the
    /// view description at the slot.
    pub fn create_srv(&mut self) -> (r: Srv)
        requires
            old(self)@.wf(),
            old(self)@.view_count < old(self)@.capacity,
        ensures
            final(self)@ == old(self)@.allocate_t().0,
            r.handle == old(self)@.view_count,
            final(self)@.wf(),
    {
        let (handle, _) = self.heap.allocate();
        Srv { handle }
    }

    /// Allocates the slot for an unordered access view; the caller writes
    /// the view description at the slot.
    pub fn create_uav(&mut self) -> (r: Uav)
        requires
            old(self)@.wf(),
            old(self)@.view_count < old(self)@.capacity,
        ensures
            final(self)@ == old(self)@.allocate_t().0,
            r.handle == old(self)@.view_count,
            final(self)@.wf(),
    {
        let (handle, _) = self.heap.allocate();
        Uav { handle }
    }

    pub fn view_count(&self) -> (r: u32)
        ensures
            r == self@.view_count,
    {
        self.heap.view_count()
    }

    pub fn capacity(&self) -> (r: u32)
        ensures
            r == self@.capacity,
    {
        self.heap.capacity()
    }
}

/// Heap for render target views.
pub struct RtvHeap {
    heap: DesciptorHeap,
}

impl View for RtvHeap {
    type V = HeapView;

    closed spec fn view(&self) -> HeapView {
        self.heap@
    }
}

impl RtvHeap {
    pub fn build(capacity: u32, view_size: u32, heap_start: usize) -> (h: RtvHeap)
        requires
            capacity > 0,
            heap_start + view_size * capacity <= usize::MAX,
        ensures
            h@ == (HeapView {
                heap_start: heap_start as int,
                view_size: view_size as int,
                view_count: 0,
                capacity: capacity as int,
            }),
            h@.wf(),
    {
        RtvHeap { heap: DesciptorHeap::build(capacity, view_size, heap_start) }
    }

    /// Allocates the slot for a render target view; the caller writes the
    /// view description at the returned CPU handle.
    pub fn create_rtv(&mut self) -> (r: Rtv)
        requires
            old(self)@.wf(),
            old(self)@.view_count < old(self)@.capacity,
        ensures
            final(self)@ == old(self)@.allocate_t().0,
            r.cpu_handle == old(self)@.heap_start + old(self)@.view_size * old(self)@.view_count,
            final(self)@.wf(),
    {
        let (_, cpu_handle) = self.heap.allocate();
        Rtv { cpu_handle }
    }

    pub fn view_count(&self) -> (r: u32)
        ensures
            r == self@.view_count,
    {
        self.heap.view_count()
    }

    pub fn capacity(&self) -> (r: u32)
        ensures
            r == self@.capacity,
    {
        self.heap.capacity()
    }
}

/// Heap for depth stencil views.
pub struct DsvHeap {
    heap: DesciptorHeap,
}

impl View for DsvHeap {
    type V = HeapView;

    closed spec fn view(&self) -> HeapView {
        self.heap@
    }
}

impl DsvHeap {
    pub fn build(capacity: u32, view_size: u32, heap_start: usize) -> (h: DsvHeap)
        requires
            capacity > 0,
            heap_start + view_size * capacity <= usize::MAX,
        ensures
            h@ == (HeapView {
                heap_start: heap_start as int,
                view_size: view_size as int,
                view_count: 0,
                capacity: capacity as int,
            }),
            h@.wf(),
    {
        DsvHeap { heap: DesciptorHeap::build(capacity, view_size, heap_start) }
    }

    /// Allocates the slot for a depth stencil view; the caller writes the
    /// view description at the returned CPU handle.
    pub fn create_dsv(&mut self) -> (r: Dsv)
        requires
            old(self)@.wf(),
            old(self)@.view_count < old(self)@.capacity,
        ensures
            final(self)@ == old(self)@.allocate_t().0,
            r.cpu_handle == old(self)@.heap_start + old(self)@.view_size * old(self)@.view_count,
            final(self)@.wf(),
    {
        let (_, cpu_handle) = self.heap.allocate();
        Dsv { cpu_handle }
    }

    pub fn view_count(&self) -> (r: u32)
        ensures
            r == self@.view_count,
    {
        self.heap.view_count()
    }

    pub fn capacity(&self) -> (r: u32)
        ensures
            r == self@.capacity,
    {
        self.heap.capacity()
    }
}

} // verus!
