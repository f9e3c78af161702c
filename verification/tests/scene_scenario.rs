//! End-to-end scenario: one triangle in one bottom-level structure, one
//! instance in the top-level structure; the first build succeeds and a
//! subsequent update leaves the top-level result buffer in place.

use render_core::command::Queue;
use render_core::mesh::Mesh;
use render_core::raytracing::{
    GpuCommand, PrebuildInfo, RaytracingScene, StructureKind, BUILD_FLAG_ALLOW_UPDATE,
    BUILD_FLAG_PERFORM_UPDATE, BUILD_FLAG_PREFER_FAST_TRACE,
};
use render_core::resource::GpuMemory;
use render_core::view::{CbvSrvUavHeap, Srv};

fn triangle_mesh(index_srv: Srv, color_srv: Srv) -> Mesh {
    Mesh {
        vertex_count: 3,
        position_buffer_address: 0x10000,
        position_stride: 12,
        position_format: 6, // three 32-bit floats per position
        index_count: 3,
        index_buffer_address: 0x20000,
        index_format: 57, // 16-bit indices
        index_srv,
        color_srv,
    }
}

#[test]
fn one_triangle_builds_and_updates_without_moving_the_tlas() {
    let mut mem = GpuMemory::new();
    let mut heap = CbvSrvUavHeap::build(100, 32, 0);
    let mut queue = Queue::build();

    let index_srv = heap.create_srv();
    let color_srv = heap.create_srv();
    let mesh = triangle_mesh(index_srv, color_srv);

    let mut scene = RaytracingScene::new(BUILD_FLAG_PREFER_FAST_TRACE);
    let blas_id = scene.add_blas(BUILD_FLAG_PREFER_FAST_TRACE | BUILD_FLAG_ALLOW_UPDATE);
    scene.add_mesh(blas_id, &mesh, Some(0x30000));

    let blas_prebuild = vec![PrebuildInfo { scratch_data_size: 1024, result_data_max_size: 2048 }];
    let tlas_prebuild = PrebuildInfo { scratch_data_size: 512, result_data_max_size: 1024 };

    let cmds = scene.build(&blas_prebuild, tlas_prebuild, &mut mem, &mut heap, &mut queue);

    // One structure: a scratch transition, its build, its barrier, the
    // instance upload, and the top-level build.
    assert_eq!(cmds.len(), 5);

    // The build was submitted and waited out: fence 1 completed.
    let v = queue.signal();
    assert_eq!(v.v, 2);

    // The first build created a usable shader-resource view (the two mesh
    // views took handles 0 and 1).
    let srv_handle = scene.srv().unwrap().handle();
    assert_eq!(srv_handle, 2);

    // The mesh slot of the shader data table was filled.
    assert_eq!(scene.mesh_data()[0].index_buffer_handle, 0);
    assert_eq!(scene.mesh_data()[0].color_buffer_handle, 1);

    let tlas_address = scene.tlas().result_buffer().unwrap().gpu_address;
    assert_eq!(scene.tlas().instance_count(), 1);

    // An update with unchanged sizes must not move the result buffer, so no
    // view recreation is required.
    let cmds = scene.update(tlas_prebuild, &mut mem, &mut heap);
    assert_eq!(cmds.len(), 5);
    assert_eq!(scene.tlas().result_buffer().unwrap().gpu_address, tlas_address);
    assert_eq!(scene.srv().unwrap().handle(), srv_handle);
}

#[test]
fn empty_scene_builds_an_empty_tlas() {
    let mut mem = GpuMemory::new();
    let mut heap = CbvSrvUavHeap::build(10, 32, 0);
    let mut queue = Queue::build();

    // Zero instances is legal: no bottom-level structures, only the instance
    // upload and the top-level build are recorded.
    let mut scene = RaytracingScene::new(0);
    let blas_prebuild: Vec<PrebuildInfo> = Vec::new();
    let tlas_prebuild = PrebuildInfo { scratch_data_size: 32, result_data_max_size: 64 };

    let cmds = scene.build(&blas_prebuild, tlas_prebuild, &mut mem, &mut heap, &mut queue);
    assert_eq!(cmds.len(), 2);
    assert_eq!(scene.tlas().instance_count(), 0);
    assert!(scene.srv().is_some());
    match cmds[1] {
        GpuCommand::Build(desc) => {
            assert_eq!(desc.inputs.num_descs, 0);
            assert!(matches!(desc.inputs.kind, StructureKind::TopLevel));
        }
        _ => panic!("expected the top-level build"),
    }
}

#[test]
fn build_records_full_builds_and_update_records_refits() {
    let mut mem = GpuMemory::new();
    let mut heap = CbvSrvUavHeap::build(10, 32, 0);
    let mut queue = Queue::build();

    let index_srv = heap.create_srv();
    let color_srv = heap.create_srv();
    let mesh = triangle_mesh(index_srv, color_srv);

    let mut scene = RaytracingScene::new(0);
    let blas_id = scene.add_blas(BUILD_FLAG_ALLOW_UPDATE);
    scene.add_mesh(blas_id, &mesh, None);

    let blas_prebuild = vec![PrebuildInfo { scratch_data_size: 64, result_data_max_size: 128 }];
    let tlas_prebuild = PrebuildInfo { scratch_data_size: 32, result_data_max_size: 64 };

    let cmds = scene.build(&blas_prebuild, tlas_prebuild, &mut mem, &mut heap, &mut queue);

    // The bottom-level build is a full build from scratch.
    let blas = scene.blas(blas_id);
    let blas_address = blas.result_buffer().unwrap().gpu_address;
    match cmds[1] {
        GpuCommand::Build(desc) => {
            assert!(matches!(desc.inputs.kind, StructureKind::BottomLevel));
            assert_eq!(desc.inputs.num_descs, 1);
            assert_eq!(desc.inputs.flags, BUILD_FLAG_ALLOW_UPDATE);
            assert_eq!(desc.dest_address, blas_address);
            assert_eq!(desc.source_address, 0);
        }
        _ => panic!("expected the bottom-level build"),
    }

    // The top-level build reads the instance buffer.
    let instance_buffer_address = scene.tlas().instance_buffer().unwrap().gpu_address;
    match cmds[3] {
        GpuCommand::WriteInstances { address, instance_count } => {
            assert_eq!(address, instance_buffer_address);
            assert_eq!(instance_count, 1);
        }
        _ => panic!("expected the instance upload"),
    }
    match cmds[4] {
        GpuCommand::Build(desc) => {
            assert!(matches!(desc.inputs.kind, StructureKind::TopLevel));
            assert_eq!(desc.inputs.num_descs, 1);
            assert_eq!(desc.inputs.instance_descs_address, instance_buffer_address);
            assert_eq!(desc.source_address, 0);
        }
        _ => panic!("expected the top-level build"),
    }

    // The update pass refits the bottom level in place.
    let cmds = scene.update(tlas_prebuild, &mut mem, &mut heap);
    match cmds[0] {
        GpuCommand::Build(desc) => {
            assert_eq!(desc.inputs.flags, BUILD_FLAG_ALLOW_UPDATE | BUILD_FLAG_PERFORM_UPDATE);
            assert_eq!(desc.dest_address, blas_address);
            assert_eq!(desc.source_address, blas_address);
        }
        _ => panic!("expected the bottom-level refit"),
    }
    match cmds[4] {
        GpuCommand::UavBarrier { address } => {
            assert_eq!(address, scene.tlas().result_buffer().unwrap().gpu_address);
        }
        _ => panic!("expected the final barrier"),
    }
}
