//! Top-level buffer growth: reallocation happens exactly when the required
//! size first exceeds the current capacity.

use render_core::raytracing::{PrebuildInfo, Tlas, TlasId, BUILD_FLAG_PREFER_FAST_TRACE};
use render_core::resource::GpuMemory;

#[test]
fn second_allocation_with_unchanged_sizes_does_not_resize() {
    let mut mem = GpuMemory::new();
    let mut tlas = Tlas::new(TlasId { v: 0 }, BUILD_FLAG_PREFER_FAST_TRACE);
    let info = PrebuildInfo { scratch_data_size: 512, result_data_max_size: 1024 };

    // The first call allocates both buffers: the result buffer moved.
    let resized = tlas.allocate_buffers(info, &mut mem);
    assert!(resized);
    let address = tlas.result_buffer().unwrap().gpu_address;

    // An unchanged requirement reuses both buffers: same address, no resize.
    let resized = tlas.allocate_buffers(info, &mut mem);
    assert!(!resized);
    assert_eq!(tlas.result_buffer().unwrap().gpu_address, address);

    // And again.
    let resized = tlas.allocate_buffers(info, &mut mem);
    assert!(!resized);
    assert_eq!(tlas.result_buffer().unwrap().gpu_address, address);
}

#[test]
fn growth_resizes_exactly_when_requirement_exceeds_capacity() {
    let mut mem = GpuMemory::new();
    let mut tlas = Tlas::new(TlasId { v: 0 }, BUILD_FLAG_PREFER_FAST_TRACE);

    let small = PrebuildInfo { scratch_data_size: 256, result_data_max_size: 512 };
    assert!(tlas.allocate_buffers(small, &mut mem));
    let first_address = tlas.result_buffer().unwrap().gpu_address;

    // A smaller requirement still fits: no resize.
    let smaller = PrebuildInfo { scratch_data_size: 128, result_data_max_size: 256 };
    assert!(!tlas.allocate_buffers(smaller, &mut mem));
    assert_eq!(tlas.result_buffer().unwrap().size, 512);

    // The first requirement beyond capacity moves the result buffer.
    let bigger = PrebuildInfo { scratch_data_size: 256, result_data_max_size: 513 };
    assert!(tlas.allocate_buffers(bigger, &mut mem));
    let second_address = tlas.result_buffer().unwrap().gpu_address;
    assert_ne!(second_address, first_address);
    assert_eq!(tlas.result_buffer().unwrap().size, 513);

    // Back below capacity: the grown buffer is kept.
    assert!(!tlas.allocate_buffers(small, &mut mem));
    assert_eq!(tlas.result_buffer().unwrap().gpu_address, second_address);
}

#[test]
fn scratch_growth_alone_does_not_report_a_resize() {
    let mut mem = GpuMemory::new();
    let mut tlas = Tlas::new(TlasId { v: 0 }, 0);

    let info = PrebuildInfo { scratch_data_size: 100, result_data_max_size: 100 };
    assert!(tlas.allocate_buffers(info, &mut mem));
    let address = tlas.result_buffer().unwrap().gpu_address;

    // Only the scratch requirement grows: the result buffer stays put and
    // the caller need not recreate its view.
    let more_scratch = PrebuildInfo { scratch_data_size: 200, result_data_max_size: 100 };
    assert!(!tlas.allocate_buffers(more_scratch, &mut mem));
    assert_eq!(tlas.result_buffer().unwrap().gpu_address, address);
}
