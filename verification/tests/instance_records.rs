//! The packed instance records the top-level structure holds.

use render_core::raytracing::{
    Blas, BlasId, PrebuildInfo, Tlas, TlasId, BUILD_FLAG_PREFER_FAST_TRACE,
};
use render_core::resource::GpuMemory;

fn built_blas(mem: &mut GpuMemory) -> Blas {
    let mut blas = Blas::new(BlasId { v: 0 }, BUILD_FLAG_PREFER_FAST_TRACE);
    blas.add_geometry(render_core::raytracing::GeometryDesc {
        transform_address: 0,
        index_format: 57,
        vertex_format: 6,
        index_count: 3,
        vertex_count: 3,
        index_buffer_address: 0x20000,
        vertex_buffer_address: 0x10000,
        vertex_stride: 12,
    });
    blas.allocate_buffers(
        PrebuildInfo { scratch_data_size: 64, result_data_max_size: 128 },
        mem,
    );
    blas
}

#[test]
fn instance_records_pack_the_referenced_structure() {
    let mut mem = GpuMemory::new();
    let blas = built_blas(&mut mem);
    let blas_address = blas.result_buffer().unwrap().gpu_address;

    let mut tlas = Tlas::new(TlasId { v: 0 }, 0);
    tlas.add_instance(&blas, None);

    let instances = tlas.instances();
    assert_eq!(instances.len(), 1);
    let inst = &instances[0];

    assert_eq!(inst.acceleration_structure, blas_address);
    // Instance id 0 under the full 8-bit mask; no flags, zero offset.
    assert_eq!(inst.id_and_mask, 0xFF000000);
    assert_eq!(inst.offset_and_flags, 0);

    // The default transform is the identity in row-major 3x4 layout.
    let one = 1.0f32.to_bits();
    for (k, &entry) in inst.transform.iter().enumerate() {
        let expected = if k % 5 == 0 { one } else { 0 };
        assert_eq!(entry, expected);
    }
}

#[test]
fn instance_transform_is_transposed_into_rows() {
    let mut mem = GpuMemory::new();
    let blas = built_blas(&mut mem);
    let mut tlas = Tlas::new(TlasId { v: 0 }, 0);

    // A column-major translation by (tx, ty, tz): the translation sits in
    // the fourth column, and must land in the fourth entry of each row.
    let one = 1.0f32.to_bits();
    let tx = 5.0f32.to_bits();
    let ty = 6.0f32.to_bits();
    let tz = 7.0f32.to_bits();
    let m: [u32; 16] = [one, 0, 0, 0, 0, one, 0, 0, 0, 0, one, 0, tx, ty, tz, one];
    tlas.add_instance(&blas, Some(&m));

    let inst = &tlas.instances()[0];
    assert_eq!(inst.transform[3], tx);
    assert_eq!(inst.transform[7], ty);
    assert_eq!(inst.transform[11], tz);
    assert_eq!(inst.transform[0], one);
    assert_eq!(inst.transform[5], one);
    assert_eq!(inst.transform[10], one);
    assert_eq!(inst.transform[1], 0);
}
