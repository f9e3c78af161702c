//! Descriptor view heaps: monotonic handle allocation and CPU handle
//! arithmetic.

use render_core::view::{CbvSrvUavHeap, DsvHeap, RtvHeap};

#[test]
fn handles_count_up_from_zero_in_call_order() {
    let mut heap = CbvSrvUavHeap::build(4, 32, 0);

    let cbv = heap.create_cbv();
    let srv = heap.create_srv();
    let uav = heap.create_uav();
    let srv2 = heap.create_srv();

    assert_eq!(cbv.handle(), 0);
    assert_eq!(srv.handle(), 1);
    assert_eq!(uav.handle(), 2);
    assert_eq!(srv2.handle(), 3);
}

#[test]
fn allocation_stops_exactly_at_capacity() {
    let capacity: u32 = 3;
    let mut heap = CbvSrvUavHeap::build(capacity, 32, 0);

    let mut handles: Vec<u32> = Vec::new();
    while heap.view_count() < heap.capacity() {
        handles.push(heap.create_srv().handle());
    }

    // All of 0..capacity was handed out, each handle once, and the capacity
    // precondition now rules out any further allocation.
    assert_eq!(handles, vec![0, 1, 2]);
    assert_eq!(heap.view_count(), capacity);
}

#[test]
fn rtv_cpu_handles_step_by_view_size() {
    let mut heap = RtvHeap::build(3, 32, 1000);

    let r0 = heap.create_rtv();
    let r1 = heap.create_rtv();
    let r2 = heap.create_rtv();

    assert_eq!(r0.cpu_handle(), 1000);
    assert_eq!(r1.cpu_handle(), 1032);
    assert_eq!(r2.cpu_handle(), 1064);
}

#[test]
fn dsv_heap_allocates_from_its_own_table() {
    let mut heap = DsvHeap::build(1, 64, 4096);
    let d = heap.create_dsv();
    assert_eq!(d.cpu_handle(), 4096);
    assert_eq!(heap.view_count(), 1);
    assert_eq!(heap.capacity(), 1);
}
