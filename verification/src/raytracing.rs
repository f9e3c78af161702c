//! Ray-tracing acceleration structures: per-mesh bottom-level structures
//! (Blas), the scene's top-level structure (Tlas), and the builder that runs
//! a full-build or incremental-update pass each frame.
//!
//! The builder decides everything the device cannot decide for itself: when
//! buffers must be (re)allocated, which build mode is legal, how instance
//! records are packed, and in what order build commands and barriers must be
//! recorded. Device-reported prebuild sizes are handed in; the build and
//! barrier commands come back out as data for the caller to record, and
//! buffer placement goes through [`crate::resource::GpuMemory`].

use vstd::prelude::*;

verus! {

use crate::math::{mat4_to_row_marjor_float3x4, identity_col_major_4x4, spec_row_major_entry,
    ColMajor4x4, RowMajor3x4};
use crate::command::Queue;
use crate::mesh::Mesh;
use crate::resource::{GpuBuffer, GpuMemory, GpuMemoryView};
use crate::view::{CbvSrvUavHeap, Srv};

/// Acceleration-structure build flags, in the device's native encoding.
pub const BUILD_FLAG_NONE: u32 = 0;

/// The structure may later be refitted with an incremental update.
pub const BUILD_FLAG_ALLOW_UPDATE: u32 = 0x1;

pub const BUILD_FLAG_ALLOW_COMPACTION: u32 = 0x2;

pub const BUILD_FLAG_PREFER_FAST_TRACE: u32 = 0x4;

pub const BUILD_FLAG_PREFER_FAST_BUILD: u32 = 0x8;

pub const BUILD_FLAG_MINIMIZE_MEMORY: u32 = 0x10;

/// This build refits the existing structure instead of rebuilding it.
pub const BUILD_FLAG_PERFORM_UPDATE: u32 = 0x20;

/// Resource states named by the transition barriers the builder records.
pub const RESOURCE_STATE_COMMON: u32 = 0;

pub const RESOURCE_STATE_UNORDERED_ACCESS: u32 = 0x8;

/// Largest value of the 24-bit instance-id and hit-group-offset fields.
pub const U24_MAX: u32 = 0xFF_FFFF;

/// Whether a full build or an incremental refit is recorded.
#[derive(Debug, Clone, Copy, PartialEq, Eq, Structural)]
pub enum BuildMode {
    FullBuild,
    Update,
}

/// Whether a build works on a bottom-level or the top-level structure.
#[derive(Debug, Clone, Copy, PartialEq, Eq, Structural)]
pub enum StructureKind {
    BottomLevel,
    TopLevel,
}

/// Identifies one bottom-level structure: its index in the builder's list.
#[derive(Debug, Clone, Copy, PartialEq, Eq, Structural)]
#[must_use]
pub struct BlasId {
    pub v: usize,
}

/// Identifies the top-level structure.
#[derive(Debug, Clone, Copy, PartialEq, Eq, Structural)]
#[must_use]
pub struct TlasId {
    pub v: usize,
}

/// One triangle-geometry record of a bottom-level structure, reduced to the
/// plain values the device build reads: buffer addresses, counts, formats,
/// and an optional per-geometry transform address (0 meaning none).
#[derive(Debug, Clone, Copy, PartialEq, Eq, Structural)]
pub struct GeometryDesc {
    pub transform_address: u64,
    pub index_format: u32,
    pub vertex_format: u32,
    pub index_count: u32,
    pub vertex_count: u32,
    pub index_buffer_address: u64,
    pub vertex_buffer_address: u64,
    pub vertex_stride: u64,
}

/// Device-reported sizes required to build a structure from given inputs.
#[derive(Debug, Clone, Copy, PartialEq, Eq, Structural)]
pub struct PrebuildInfo {
    pub scratch_data_size: u64,
    pub result_data_max_size: u64,
}

/// One packed per-instance record of the top-level structure, in the
/// device's native instance-descriptor layout: a row-major 3x4 transform,
/// the referenced bottom-level structure's result-buffer address, and two
/// packed 32-bit fields (instance id under instance mask, hit-group offset
/// under instance flags).
#[derive(Debug, Clone, Copy)]
pub struct InstanceDesc {
    pub transform: RowMajor3x4,
    pub acceleration_structure: u64,
    pub id_and_mask: u32,
    pub offset_and_flags: u32,
}

/// The instance id (24 bits) and instance mask (8 bits) packed into one
/// 32-bit field.
pub open spec fn spec_pack_id_mask(instance_id: u32, instance_mask: u32) -> u32 {
    (instance_mask << 24) | instance_id
}

/// The hit-group offset (24 bits) and instance flags (8 bits) packed into
/// one 32-bit field.
pub open spec fn spec_pack_offset_flags(offset: u32, flags: u32) -> u32 {
    (flags << 24) | offset
}

/// Packs the instance id and mask into the device's native field layout.
pub fn pack_id_mask(instance_id: u32, instance_mask: u32) -> (r: u32)
    requires
        instance_id <= U24_MAX,
        instance_mask <= 0xFF,
    ensures
        r == spec_pack_id_mask(instance_id, instance_mask),
        r & 0xFF_FFFF == instance_id,
        r >> 24 == instance_mask,
{
    proof {
        assert(((instance_mask << 24) | instance_id) & 0xFF_FFFF == instance_id && ((instance_mask
            << 24) | instance_id) >> 24 == instance_mask) by (bit_vector)
            requires
                instance_id <= 0xFF_FFFFu32,
                instance_mask <= 0xFFu32,
        ;
    }
    (instance_mask << 24) | instance_id
}

/// Packs the hit-group offset and instance flags into the device's native
/// field layout.
pub fn pack_offset_flags(offset: u32, flags: u32) -> (r: u32)
    requires
        offset <= U24_MAX,
        flags <= 0xFF,
    ensures
        r == spec_pack_offset_flags(offset, flags),
        r & 0xFF_FFFF == offset,
        r >> 24 == flags,
{
    proof {
        assert(((flags << 24) | offset) & 0xFF_FFFF == offset && ((flags << 24) | offset) >> 24
            == flags) by (bit_vector)
            requires
                offset <= 0xFF_FFFFu32,
                flags <= 0xFFu32,
        ;
    }
    (flags << 24) | offset
}

/// Recovers the low 24-bit field (instance id or hit-group offset) of a
/// packed instance-descriptor field.
pub fn unpack_low24(packed: u32) -> (r: u32)
    ensures
        r == packed & 0xFF_FFFF,
        r <= U24_MAX,
{
    proof {
        assert(packed & 0xFF_FFFF <= 0xFF_FFFFu32) by (bit_vector);
    }
    packed & 0xFF_FFFF
}

/// Recovers the high 8-bit field (instance mask or instance flags) of a
/// packed instance-descriptor field.
pub fn unpack_high8(packed: u32) -> (r: u32)
    ensures
        r == packed >> 24,
        r <= 0xFF,
{
    proof {
        assert(packed >> 24 <= 0xFFu32) by (bit_vector);
    }
    packed >> 24
}

/// Packs all four instance-descriptor fields, rejecting any value that does
/// not fit its field: the id and the offset must fit in 24 bits, the mask
/// and the flags in 8.
pub fn encode_instance_fields(instance_mask: u32, instance_id: u32, flags: u32, offset: u32) -> (r:
    Option<(u32, u32)>)
    ensures
        r is Some <==> instance_mask <= 0xFF && instance_id <= U24_MAX && flags <= 0xFF && offset
            <= U24_MAX,
        r matches Some(p) ==> p.0 == spec_pack_id_mask(instance_id, instance_mask) && p.1
            == spec_pack_offset_flags(offset, flags),
{
    if instance_mask <= 0xFF && instance_id <= U24_MAX && flags <= 0xFF && offset <= U24_MAX {
        Some((pack_id_mask(instance_id, instance_mask), pack_offset_flags(offset, flags)))
    } else {
        None
    }
}

/// Law (instance encoding round-trip): any in-range mask, id, flags and
/// offset survive packing into the two 32-bit instance-descriptor fields
/// and unpacking again unchanged.
pub proof fn lemma_instance_encoding_round_trip(
    instance_mask: u32,
    instance_id: u32,
    flags: u32,
    offset: u32,
)
    requires
        instance_mask <= 0xFF,
        instance_id <= U24_MAX,
        flags <= 0xFF,
        offset <= U24_MAX,
    ensures
        spec_pack_id_mask(instance_id, instance_mask) & 0xFF_FFFF == instance_id,
        spec_pack_id_mask(instance_id, instance_mask) >> 24 == instance_mask,
        spec_pack_offset_flags(offset, flags) & 0xFF_FFFF == offset,
        spec_pack_offset_flags(offset, flags) >> 24 == flags,
{
    assert(((instance_mask << 24) | instance_id) & 0xFF_FFFF == instance_id && ((instance_mask
        << 24) | instance_id) >> 24 == instance_mask && ((flags << 24) | offset) & 0xFF_FFFF
        == offset && ((flags << 24) | offset) >> 24 == flags) by (bit_vector)
        requires
            instance_id <= 0xFF_FFFFu32,
            instance_mask <= 0xFFu32,
            offset <= 0xFF_FFFFu32,
            flags <= 0xFFu32,
    ;
}

/// The inputs of one acceleration-structure build, reduced to what the
/// device reads: the structure kind, the build flags, the number of
/// geometry or instance records, and for a top-level build the instance
/// buffer's address (0 for bottom-level builds, whose geometry descriptors
/// the builder itself holds).
#[derive(Debug, Clone, Copy, PartialEq, Eq, Structural)]
pub struct BuildInputs {
    pub kind: StructureKind,
    pub flags: u32,
    pub num_descs: u32,
    pub instance_descs_address: u64,
}

/// One recorded acceleration-structure build: its inputs, the result
/// buffer's address, the scratch buffer's address, and the source address —
/// 0 for a full build, the structure's own address for a refit.
#[derive(Debug, Clone, Copy, PartialEq, Eq, Structural)]
pub struct BuildDesc {
    pub inputs: BuildInputs,
    pub dest_address: u64,
    pub scratch_address: u64,
    pub source_address: u64,
}

/// One command for the caller to record, in order, into the frame's command
/// list.
#[derive(Debug, Clone, Copy, PartialEq, Eq, Structural)]
pub enum GpuCommand {
    /// Transition a resource between states.
    Transition { address: u64, state_before: u32, state_after: u32 },
    /// Unordered-access barrier: later reads observe the completed build.
    UavBarrier { address: u64 },
    /// Build or refit an acceleration structure.
    Build(BuildDesc),
    /// Upload the builder's current instance records to the instance buffer.
    WriteInstances { address: u64, instance_count: usize },
}

/// Mathematical image of a [`Blas`].
pub ghost struct BlasView {
    pub id: int,
    pub buffer: Option<GpuBuffer>,
    pub scratch_buffer: Option<GpuBuffer>,
    pub build_flags: u32,
    pub geometries: Seq<GeometryDesc>,
    pub built: bool,
}

impl BlasView {
    /// The build inputs of this structure for the given mode.
    pub open spec fn inputs_t(self, mode: BuildMode) -> BuildInputs {
        BuildInputs {
            kind: StructureKind::BottomLevel,
            flags: if mode is Update {
                self.build_flags | BUILD_FLAG_PERFORM_UPDATE
            } else {
                self.build_flags
            },
            num_descs: self.geometries.len() as u32,
            instance_descs_address: 0,
        }
    }

    /// The recorded build for the given mode: a full build writes the result
    /// buffer from scratch; a refit reads the structure as its own source.
    pub open spec fn build_t(self, mode: BuildMode) -> BuildDesc {
        BuildDesc {
            inputs: self.inputs_t(mode),
            dest_address: self.buffer->Some_0.gpu_address,
            scratch_address: self.scratch_buffer->Some_0.gpu_address,
            source_address: if mode is Update {
                self.buffer->Some_0.gpu_address
            } else {
                0
            },
        }
    }

    /// Result and scratch buffers are allocated together, exactly once.
    pub open spec fn allocated(self) -> bool {
        self.buffer is Some && self.scratch_buffer is Some
    }

    /// An incremental update is legal only for a structure built with the
    /// allow-update flag.
    pub open spec fn updatable(self) -> bool {
        self.build_flags & BUILD_FLAG_ALLOW_UPDATE != 0
    }
}

/// One bottom-level acceleration structure: an ordered geometry list, fixed
/// from its first build on, and result/scratch buffers allocated exactly
/// once from device-reported prebuild sizes.
pub struct Blas {
    id: BlasId,
    buffer: Option<GpuBuffer>,
    scratch_buffer: Option<GpuBuffer>,
    build_flags: u32,
    geometries: Vec<GeometryDesc>,
    built: bool,
}

impl View for Blas {
    type V = BlasView;

    closed spec fn view(&self) -> BlasView {
        BlasView {
            id: self.id.v as int,
            buffer: self.buffer,
            scratch_buffer: self.scratch_buffer,
            build_flags: self.build_flags,
            geometries: self.geometries@,
            built: self.built,
        }
    }
}

impl Blas {
    /// A fresh bottom-level structure: no geometry, nothing allocated,
    /// unbuilt.
    pub fn new(id: BlasId, build_flags: u32) -> (b: Blas)
        ensures
            b@ == (BlasView {
                id: id.v as int,
                buffer: None,
                scratch_buffer: None,
                build_flags,
                geometries: Seq::empty(),
                built: false,
            }),
    {
        let b = Blas {
            id,
            buffer: None,
            scratch_buffer: None,
            build_flags,
            geometries: Vec::new(),
            built: false,
        };
        proof {
            assert(b@.geometries =~= Seq::<GeometryDesc>::empty());
        }
        b
    }

    /// The identifier this structure was created under.
    pub fn id(&self) -> (r: BlasId)
        ensures
            r.v == self@.id,
    {
        self.id
    }

    /// Appends one geometry record. The geometry list is fixed once the
    /// structure is built: adding afterwards is ruled out.
    pub fn add_geometry(&mut self, geometry: GeometryDesc)
        requires
            !old(self)@.built,
            !old(self)@.allocated(),
            old(self)@.geometries.len() < usize::MAX,
        ensures
            final(self)@ == (BlasView {
                geometries: old(self)@.geometries.push(geometry),
                ..old(self)@
            }),
    {
        self.geometries.push(geometry);
        proof {
            assert(self@.geometries =~= old(self)@.geometries.push(geometry));
        }
    }

    /// Allocates the result and scratch buffers, exactly once per structure,
    /// from the device-reported prebuild sizes for this geometry list. The
    /// scratch buffer starts in the common state and must transition to
    /// unordered access before building.
    pub fn allocate_buffers(&mut self, info: PrebuildInfo, mem: &mut GpuMemory)
        requires
            old(self)@.buffer is None,
            old(self)@.scratch_buffer is None,
            old(mem)@.wf(),
            old(mem)@.next_address + info.scratch_data_size + info.result_data_max_size + 2
                <= u64::MAX,
        ensures
            final(self)@ == (BlasView {
                scratch_buffer: Some(old(mem)@.create_t(info.scratch_data_size as int).1),
                buffer: Some(
                    old(mem)@.create_t(info.scratch_data_size as int).0.create_t(
                        info.result_data_max_size as int,
                    ).1,
                ),
                ..old(self)@
            }),
            final(self)@.allocated(),
            final(self)@.buffer->Some_0.size == info.result_data_max_size,
            final(self)@.scratch_buffer->Some_0.size == info.scratch_data_size,
            0 < final(self)@.buffer->Some_0.gpu_address < final(mem)@.next_address,
            0 < final(self)@.scratch_buffer->Some_0.gpu_address < final(mem)@.next_address,
            final(mem)@ == old(mem)@.create_t(info.scratch_data_size as int).0.create_t(
                info.result_data_max_size as int,
            ).0,
            final(mem)@.wf(),
            final(mem)@.next_address > old(mem)@.next_address,
    {
        let scratch_buffer = mem.create_buffer(info.scratch_data_size);
        let buffer = mem.create_buffer(info.result_data_max_size);
        self.buffer = Some(buffer);
        self.scratch_buffer = Some(scratch_buffer);
    }

    /// Records the first (full) build of this structure. Requires allocated
    /// buffers and a non-empty geometry list: the device rejects
    /// zero-geometry builds.
    pub fn build(&mut self) -> (c: GpuCommand)
        requires
            old(self)@.allocated(),
            old(self)@.geometries.len() > 0,
            old(self)@.geometries.len() <= u32::MAX,
        ensures
            final(self)@ == (BlasView { built: true, ..old(self)@ }),
            c == GpuCommand::Build(old(self)@.build_t(BuildMode::FullBuild)),
    {
        let desc = self.build_desc(BuildMode::FullBuild);
        self.built = true;
        GpuCommand::Build(desc)
    }

    /// Records an incremental refit: reads the prior result as its source
    /// and writes it in place with the same geometry count. Legal only once
    /// built, and only if the structure allows updates.
    pub fn update(&mut self) -> (c: GpuCommand)
        requires
            old(self)@.allocated(),
            old(self)@.built,
            old(self)@.updatable(),
            old(self)@.geometries.len() > 0,
            old(self)@.geometries.len() <= u32::MAX,
        ensures
            final(self)@ == old(self)@,
            c == GpuCommand::Build(old(self)@.build_t(BuildMode::Update)),
    {
        let desc = self.build_desc(BuildMode::Update);
        GpuCommand::Build(desc)
    }

    /// The build descriptor for the given mode.
    fn build_desc(&self, mode: BuildMode) -> (c: BuildDesc)
        requires
            self@.allocated(),
            mode is Update ==> self@.updatable(),
            self@.geometries.len() <= u32::MAX,
        ensures
            c == self@.build_t(mode),
    {
        let buffer = self.buffer.as_ref().unwrap();
        let scratch = self.scratch_buffer.as_ref().unwrap();
        let dest_address = buffer.gpu_address;
        BuildDesc {
            inputs: self.inputs(mode),
            dest_address,
            scratch_address: scratch.gpu_address,
            source_address: if matches!(mode, BuildMode::Update) {
                dest_address
            } else {
                0
            },
        }
    }

    /// The build inputs for the given mode; an update must have been allowed
    /// when the structure was created.
    fn inputs(&self, mode: BuildMode) -> (r: BuildInputs)
        requires
            mode is Update ==> self@.updatable(),
            self@.geometries.len() <= u32::MAX,
        ensures
            r == self@.inputs_t(mode),
    {
        let flags = if matches!(mode, BuildMode::Update) {
            self.build_flags | BUILD_FLAG_PERFORM_UPDATE
        } else {
            self.build_flags
        };
        BuildInputs {
            kind: StructureKind::BottomLevel,
            flags,
            num_descs: self.geometries.len() as u32,
            instance_descs_address: 0,
        }
    }

    /// The result buffer, once allocated: the structure the device builds
    /// into, whose address instance records reference.
    pub fn result_buffer(&self) -> (r: Option<GpuBuffer>)
        ensures
            r == self@.buffer,
    {
        self.buffer
    }

    /// The scratch buffer, once allocated.
    pub fn scratch_buffer(&self) -> (r: Option<GpuBuffer>)
        ensures
            r == self@.scratch_buffer,
    {
        self.scratch_buffer
    }

    /// Whether the structure has been built at least once.
    pub fn is_built(&self) -> (r: bool)
        ensures
            r == self@.built,
    {
        self.built
    }

    /// Number of geometry records added so far.
    pub fn geometry_count(&self) -> (r: usize)
        ensures
            r == self@.geometries.len(),
    {
        self.geometries.len()
    }
}

/// Size in bytes of one packed instance descriptor in the device's layout.
pub const INSTANCE_DESC_SIZE: u64 = 64;

/// The instance mask every instance is packed with: visible to all rays.
pub const FULL_INSTANCE_MASK: u32 = 0xFF;

/// The transform entries an instance record is packed with: the given
/// column-major 4x4 transform in row-major 3x4 layout, or the identity when
/// none is given.
pub open spec fn spec_instance_transform(transform: Option<&ColMajor4x4>, k: int) -> u32 {
    match transform {
        Some(m) => spec_row_major_entry(m@, k),
        None => if k % 5 == 0 {
            0x3F80_0000u32
        } else {
            0u32
        },
    }
}

/// Mathematical image of a [`Tlas`].
pub ghost struct TlasView {
    pub id: int,
    pub buffer: Option<GpuBuffer>,
    pub scratch_buffer: Option<GpuBuffer>,
    pub build_flags: u32,
    pub instances: Seq<InstanceDesc>,
    pub instance_buffer: Option<GpuBuffer>,
    pub built: bool,
}

impl TlasView {
    /// The scratch buffer must be reallocated: absent, or its capacity below
    /// the device-reported requirement.
    pub open spec fn needs_scratch(self, info: PrebuildInfo) -> bool {
        self.scratch_buffer is None || self.scratch_buffer->Some_0.size < info.scratch_data_size
    }

    /// The result buffer must be reallocated: absent, or its capacity below
    /// the device-reported requirement.
    pub open spec fn needs_result(self, info: PrebuildInfo) -> bool {
        self.buffer is None || self.buffer->Some_0.size < info.result_data_max_size
    }

    /// Transition of `allocate_buffers`: each buffer is kept when its
    /// capacity already covers the requirement and reallocated otherwise;
    /// the returned flag says whether the result buffer moved.
    pub open spec fn allocate_buffers_t(self, info: PrebuildInfo, mem: GpuMemoryView) -> (
        TlasView,
        GpuMemoryView,
        bool,
    ) {
        let (mem1, scratch) = if self.needs_scratch(info) {
            (
                mem.create_t(info.scratch_data_size as int).0,
                mem.create_t(info.scratch_data_size as int).1,
            )
        } else {
            (mem, self.scratch_buffer->Some_0)
        };
        let (mem2, buffer) = if self.needs_result(info) {
            (
                mem1.create_t(info.result_data_max_size as int).0,
                mem1.create_t(info.result_data_max_size as int).1,
            )
        } else {
            (mem1, self.buffer->Some_0)
        };
        (
            TlasView { scratch_buffer: Some(scratch), buffer: Some(buffer), ..self },
            mem2,
            self.needs_result(info),
        )
    }

    /// Result and scratch buffers are present.
    pub open spec fn allocated(self) -> bool {
        self.buffer is Some && self.scratch_buffer is Some
    }

    /// The build inputs of the top-level structure: always a full build over
    /// the packed instance records in the instance buffer.
    pub open spec fn inputs_t(self) -> BuildInputs {
        BuildInputs {
            kind: StructureKind::TopLevel,
            flags: self.build_flags,
            num_descs: self.instances.len() as u32,
            instance_descs_address: if self.instance_buffer is Some {
                self.instance_buffer->Some_0.gpu_address
            } else {
                0
            },
        }
    }

    /// The recorded top-level build.
    pub open spec fn build_t(self) -> BuildDesc {
        BuildDesc {
            inputs: self.inputs_t(),
            dest_address: self.buffer->Some_0.gpu_address,
            scratch_address: self.scratch_buffer->Some_0.gpu_address,
            source_address: 0,
        }
    }

    /// Every buffer this structure holds was placed by the given address
    /// space: it lies below the next address to be handed out, so a fresh
    /// buffer can never reuse its address.
    pub open spec fn owned_by(self, mem: GpuMemoryView) -> bool {
        &&& (self.buffer matches Some(b) ==> 0 < b.gpu_address < mem.next_address)
        &&& (self.scratch_buffer matches Some(b) ==> 0 < b.gpu_address < mem.next_address)
        &&& (self.instance_buffer matches Some(b) ==> 0 < b.gpu_address < mem.next_address)
    }
}

/// Law (buffer-growth idempotence): reallocation happens exactly when the
/// device-reported requirement first exceeds the current capacity. A second
/// `allocate_buffers` with an unchanged requirement reallocates nothing:
/// it reports no resize and leaves the result buffer — address included —
/// exactly as the first call left it.
pub proof fn lemma_allocate_buffers_idempotent(t: TlasView, info: PrebuildInfo, mem: GpuMemoryView)
    ensures
        t.allocate_buffers_t(info, mem).2 == t.needs_result(info),
        !t.allocate_buffers_t(info, mem).0.allocate_buffers_t(
            info,
            t.allocate_buffers_t(info, mem).1,
        ).2,
        t.allocate_buffers_t(info, mem).0.allocate_buffers_t(
            info,
            t.allocate_buffers_t(info, mem).1,
        ).0.buffer == t.allocate_buffers_t(info, mem).0.buffer,
        t.allocate_buffers_t(info, mem).0.allocate_buffers_t(
            info,
            t.allocate_buffers_t(info, mem).1,
        ).0.scratch_buffer == t.allocate_buffers_t(info, mem).0.scratch_buffer,
{
}

/// The scene's top-level acceleration structure: an ordered list of packed
/// per-instance records — order fixes the shader-visible instance index —
/// with an instance upload buffer and result/scratch buffers that grow on
/// demand.
pub struct Tlas {
    id: TlasId,
    buffer: Option<GpuBuffer>,
    scratch_buffer: Option<GpuBuffer>,
    build_flags: u32,
    instances: Vec<InstanceDesc>,
    instance_buffer: Option<GpuBuffer>,
    built: bool,
}

impl View for Tlas {
    type V = TlasView;

    closed spec fn view(&self) -> TlasView {
        TlasView {
            id: self.id.v as int,
            buffer: self.buffer,
            scratch_buffer: self.scratch_buffer,
            build_flags: self.build_flags,
            instances: self.instances@,
            instance_buffer: self.instance_buffer,
            built: self.built,
        }
    }
}

impl Tlas {
    /// A fresh top-level structure: no instances, nothing allocated,
    /// unbuilt.
    pub fn new(id: TlasId, build_flags: u32) -> (t: Tlas)
        ensures
            t@ == (TlasView {
                id: id.v as int,
                buffer: None,
                scratch_buffer: None,
                build_flags,
                instances: Seq::empty(),
                instance_buffer: None,
                built: false,
            }),
    {
        let t = Tlas {
            id,
            buffer: None,
            scratch_buffer: None,
            build_flags,
            instances: Vec::new(),
            instance_buffer: None,
            built: false,
        };
        proof {
            assert(t@.instances =~= Seq::<InstanceDesc>::empty());
        }
        t
    }

    /// Appends one instance record referencing the given built bottom-level
    /// structure: its result-buffer address, the given transform (identity
    /// when none), a full 8-bit instance mask, the structure's identifier as
    /// the 24-bit instance id, no flags and a zero hit-group offset. The
    /// record's position is the shader-visible instance index.
    pub fn add_instance(&mut self, blas: &Blas, transform: Option<&ColMajor4x4>)
        requires
            blas@.buffer is Some,
            blas@.id <= U24_MAX,
            old(self)@.instances.len() < usize::MAX,
        ensures
            final(self)@.instances.len() == old(self)@.instances.len() + 1,
            forall|j: int|
                0 <= j < old(self)@.instances.len() ==> final(self)@.instances[j] == old(
                    self,
                )@.instances[j],
            ({
                let inst = final(self)@.instances.last();
                &&& inst.acceleration_structure == blas@.buffer->Some_0.gpu_address
                &&& inst.id_and_mask == spec_pack_id_mask(blas@.id as u32, FULL_INSTANCE_MASK)
                &&& inst.offset_and_flags == spec_pack_offset_flags(0, 0)
                &&& forall|k: int|
                    0 <= k < 12 ==> inst.transform[k] == spec_instance_transform(transform, k)
            }),
            final(self)@ == (TlasView { instances: final(self)@.instances, ..old(self)@ }),
    {
        let transform_entries: RowMajor3x4 = match transform {
            Some(m) => mat4_to_row_marjor_float3x4(m),
            None => mat4_to_row_marjor_float3x4(&identity_col_major_4x4()),
        };
        let blas_buffer = blas.result_buffer().unwrap();
        let instance_id = blas.id().v as u32;
        let instance = InstanceDesc {
            transform: transform_entries,
            acceleration_structure: blas_buffer.gpu_address,
            id_and_mask: pack_id_mask(instance_id, FULL_INSTANCE_MASK),
            offset_and_flags: pack_offset_flags(0, 0),
        };
        self.instances.push(instance);
    }

    /// Creates the instance upload buffer sized for the current instance
    /// records and hands back the command to upload them into it.
    pub fn init_instance_buffer(&mut self, mem: &mut GpuMemory) -> (c: GpuCommand)
        requires
            old(self)@.instance_buffer is None,
            old(mem)@.wf(),
            old(mem)@.next_address + old(self)@.instances.len() * INSTANCE_DESC_SIZE + 1
                <= u64::MAX,
            old(self)@.instances.len() * INSTANCE_DESC_SIZE <= u64::MAX,
        ensures
            final(self)@ == (TlasView {
                instance_buffer: Some(
                    old(mem)@.create_t(
                        old(self)@.instances.len() * INSTANCE_DESC_SIZE,
                    ).1,
                ),
                ..old(self)@
            }),
            final(self)@.instance_buffer->Some_0.size == old(self)@.instances.len()
                * INSTANCE_DESC_SIZE,
            final(mem)@ == old(mem)@.create_t(old(self)@.instances.len() * INSTANCE_DESC_SIZE).0,
            final(mem)@.wf(),
            final(mem)@.next_address > old(mem)@.next_address,
            c == (GpuCommand::WriteInstances {
                address: final(self)@.instance_buffer->Some_0.gpu_address,
                instance_count: old(self)@.instances.len() as usize,
            }),
    {
        let count = self.instances.len();
        let buffer = mem.create_buffer((count as u64) * INSTANCE_DESC_SIZE);
        let address = buffer.gpu_address;
        self.instance_buffer = Some(buffer);
        GpuCommand::WriteInstances { address, instance_count: count }
    }

    /// Holds each buffer against the device-reported requirement, reuses one
    /// whose capacity already covers it and reallocates the others. Returns
    /// true iff the result buffer's GPU address changed — exactly when a
    /// reallocation occurred — in which case the caller must recreate the
    /// shader-resource view referencing it.
    #[must_use]
    pub fn allocate_buffers(&mut self, info: PrebuildInfo, mem: &mut GpuMemory) -> (resized: bool)
        requires
            old(self)@.owned_by(old(mem)@),
            old(mem)@.wf(),
            old(mem)@.next_address + info.scratch_data_size + info.result_data_max_size + 2
                <= u64::MAX,
        ensures
            final(self)@ == old(self)@.allocate_buffers_t(info, old(mem)@).0,
            final(mem)@ == old(self)@.allocate_buffers_t(info, old(mem)@).1,
            resized == old(self)@.allocate_buffers_t(info, old(mem)@).2,
            resized == old(self)@.needs_result(info),
            !resized ==> final(self)@.buffer == old(self)@.buffer,
            resized && old(self)@.buffer is Some ==> final(self)@.buffer->Some_0.gpu_address != old(
                self,
            )@.buffer->Some_0.gpu_address,
            final(self)@.allocated(),
            final(self)@.buffer->Some_0.size >= info.result_data_max_size,
            final(self)@.scratch_buffer->Some_0.size >= info.scratch_data_size,
            final(self)@.owned_by(final(mem)@),
            final(mem)@.wf(),
            final(mem)@.next_address >= old(mem)@.next_address,
    {
        let need_scratch = match &self.scratch_buffer {
            Some(b) => b.size < info.scratch_data_size,
            None => true,
        };
        if need_scratch {
            self.scratch_buffer = Some(mem.create_buffer(info.scratch_data_size));
        }
        let need_result = match &self.buffer {
            Some(b) => b.size < info.result_data_max_size,
            None => true,
        };
        if need_result {
            self.buffer = Some(mem.create_buffer(info.result_data_max_size));
        }
        need_result
    }

    /// Records the top-level build: always a full build over the instance
    /// buffer. Requires the instance buffer and the result/scratch buffers
    /// to exist.
    pub fn build(&mut self) -> (c: GpuCommand)
        requires
            old(self)@.instance_buffer is Some,
            old(self)@.allocated(),
            old(self)@.instances.len() <= u32::MAX,
        ensures
            final(self)@ == (TlasView { built: true, ..old(self)@ }),
            c == GpuCommand::Build(old(self)@.build_t()),
    {
        let buffer = self.buffer.as_ref().unwrap();
        let scratch = self.scratch_buffer.as_ref().unwrap();
        let instance_buffer = self.instance_buffer.as_ref().unwrap();
        let desc = BuildDesc {
            inputs: BuildInputs {
                kind: StructureKind::TopLevel,
                flags: self.build_flags,
                num_descs: self.instances.len() as u32,
                instance_descs_address: instance_buffer.gpu_address,
            },
            dest_address: buffer.gpu_address,
            scratch_address: scratch.gpu_address,
            source_address: 0,
        };
        self.built = true;
        GpuCommand::Build(desc)
    }

    /// The result buffer, once allocated: what the shader-resource view for
    /// ray dispatch must reference.
    pub fn result_buffer(&self) -> (r: Option<GpuBuffer>)
        ensures
            r == self@.buffer,
    {
        self.buffer
    }

    /// The instance upload buffer, once created.
    pub fn instance_buffer(&self) -> (r: Option<GpuBuffer>)
        ensures
            r == self@.instance_buffer,
    {
        self.instance_buffer
    }

    /// The packed instance records in shader-visible instance order: what
    /// the instance upload writes into the instance buffer.
    pub fn instances(&self) -> (r: &Vec<InstanceDesc>)
        ensures
            r@ == self@.instances,
    {
        &self.instances
    }

    /// Number of instance records added so far.
    pub fn instance_count(&self) -> (r: usize)
        ensures
            r == self@.instances.len(),
    {
        self.instances.len()
    }

    /// Whether the structure has been built at least once.
    pub fn is_built(&self) -> (r: bool)
        ensures
            r == self@.built,
    {
        self.built
    }
}

/// Capacity of the per-mesh data table handed to the ray-tracing shader;
/// must match the table declared there.
pub const MAX_MESH_DATA_COUNT: usize = 1;

/// Per-mesh shader data: the shader-visible handles of the mesh's index and
/// color buffers, padded to the shader's record size.
#[derive(Debug, Clone, Copy)]
pub struct MeshData {
    pub index_buffer_handle: u32,
    pub color_buffer_handle: u32,
    pub reserved: [u32; 2],
}

impl Default for MeshData {
    /// An unfilled slot: every handle at the sentinel value.
    fn default() -> (r: MeshData)
        ensures
            r.index_buffer_handle == u32::MAX,
            r.color_buffer_handle == u32::MAX,
            r.reserved[0] == u32::MAX,
            r.reserved[1] == u32::MAX,
    {
        MeshData {
            index_buffer_handle: u32::MAX,
            color_buffer_handle: u32::MAX,
            reserved: [u32::MAX, u32::MAX],
        }
    }
}

/// Mathematical image of a [`RaytracingScene`].
pub ghost struct SceneView {
    pub blas_list: Seq<BlasView>,
    pub tlas: TlasView,
    pub srv: Option<int>,
    pub mesh_data: Seq<MeshData>,
}

impl SceneView {
    /// Well-formedness: the mesh-data table has its fixed capacity, each
    /// bottom-level structure sits at the index its identifier names, and
    /// there is exactly one top-level structure.
    pub open spec fn wf(self) -> bool {
        &&& self.mesh_data.len() == MAX_MESH_DATA_COUNT
        &&& forall|i: int|
            0 <= i < self.blas_list.len() ==> (#[trigger] self.blas_list[i]).id == i
        &&& self.tlas.id == 0
    }

    /// Total geometry records over all bottom-level structures.
    pub open spec fn total_geometry_count(self) -> int {
        geometry_sum(self.blas_list)
    }
}

/// Total geometry records over a list of bottom-level structures.
pub open spec fn geometry_sum(s: Seq<BlasView>) -> int
    decreases s.len(),
{
    if s.len() == 0 {
        0
    } else {
        s[0].geometries.len() + geometry_sum(s.drop_first())
    }
}

/// What the buffer allocations of a full build of the first `k` bottom-level
/// structures advance the address space by: one scratch and one result
/// buffer each.
pub open spec fn prebuild_prefix_total(infos: Seq<PrebuildInfo>, k: int) -> int
    decreases k,
{
    if k <= 0 {
        0
    } else {
        prebuild_prefix_total(infos, k - 1) + infos[k - 1].scratch_data_size
            + infos[k - 1].result_data_max_size + 2
    }
}

/// The ray-tracing scene builder: all bottom-level structures, the one
/// top-level structure, its recreatable shader-resource view, and the
/// per-mesh shader data table.
pub struct RaytracingScene {
    blas_list: Vec<Blas>,
    tlas: Tlas,
    srv: Option<Srv>,
    mesh_data: Vec<MeshData>,
}

impl View for RaytracingScene {
    type V = SceneView;

    closed spec fn view(&self) -> SceneView {
        SceneView {
            blas_list: Seq::new(self.blas_list@.len(), |i: int| self.blas_list@[i]@),
            tlas: self.tlas@,
            srv: if self.srv is Some {
                Some(self.srv->Some_0.handle as int)
            } else {
                None
            },
            mesh_data: self.mesh_data@,
        }
    }
}

impl RaytracingScene {
    /// A fresh scene: no bottom-level structures, an empty unbuilt top-level
    /// structure with the given build flags, no shader-resource view, and an
    /// unfilled mesh-data table.
    pub fn new(tlas_flags: u32) -> (s: RaytracingScene)
        ensures
            s@.wf(),
            s@.blas_list.len() == 0,
            s@.tlas == (TlasView {
                id: 0,
                buffer: None,
                scratch_buffer: None,
                build_flags: tlas_flags,
                instances: Seq::empty(),
                instance_buffer: None,
                built: false,
            }),
            s@.srv is None,
            s@.mesh_data.len() == MAX_MESH_DATA_COUNT,
            forall|i: int|
                0 <= i < MAX_MESH_DATA_COUNT ==> (#[trigger] s@.mesh_data[i]).index_buffer_handle
                    == u32::MAX && s@.mesh_data[i].color_buffer_handle == u32::MAX,
    {
        let tlas = Tlas::new(TlasId { v: 0 }, tlas_flags);
        let mut mesh_data: Vec<MeshData> = Vec::new();
        while mesh_data.len() < MAX_MESH_DATA_COUNT
            invariant
                mesh_data@.len() <= MAX_MESH_DATA_COUNT,
                forall|i: int|
                    0 <= i < mesh_data@.len() ==> (#[trigger] mesh_data@[i]).index_buffer_handle
                        == u32::MAX && mesh_data@[i].color_buffer_handle == u32::MAX,
            decreases MAX_MESH_DATA_COUNT - mesh_data@.len(),
        {
            mesh_data.push(MeshData::default());
        }
        let s = RaytracingScene { blas_list: Vec::new(), tlas, srv: None, mesh_data };
        proof {
            assert(s@.blas_list =~= Seq::<BlasView>::empty());
        }
        s
    }

    /// Creates one bottom-level structure with the given build flags; its
    /// identifier is its position in the list.
    pub fn add_blas(&mut self, build_flags: u32) -> (id: BlasId)
        requires
            old(self)@.wf(),
            old(self)@.blas_list.len() < usize::MAX,
        ensures
            id.v == old(self)@.blas_list.len(),
            final(self)@.blas_list.len() == old(self)@.blas_list.len() + 1,
            forall|i: int|
                0 <= i < old(self)@.blas_list.len() ==> final(self)@.blas_list[i] == old(
                    self,
                )@.blas_list[i],
            final(self)@.blas_list.last() == (BlasView {
                id: id.v as int,
                buffer: None,
                scratch_buffer: None,
                build_flags,
                geometries: Seq::empty(),
                built: false,
            }),
            final(self)@.tlas == old(self)@.tlas,
            final(self)@.srv == old(self)@.srv,
            final(self)@.mesh_data == old(self)@.mesh_data,
            final(self)@.wf(),
    {
        let id = BlasId { v: self.blas_list.len() };
        self.blas_list.push(Blas::new(id, build_flags));
        proof {
            assert forall|i: int| 0 <= i < self@.blas_list.len() implies (
            #[trigger] self@.blas_list[i]).id == i by {
                if i < old(self)@.blas_list.len() {
                    assert(self@.blas_list[i] == old(self)@.blas_list[i]);
                    assert(old(self)@.blas_list[i].id == i);
                }
            }
        }
        id
    }

    /// Adds one mesh's triangle geometry to the named bottom-level structure
    /// — legal only before that structure's first build — and fills the
    /// mesh's slot of the shader data table. `transform_address` is the GPU
    /// address of an optional per-geometry transform (absent meaning none).
    pub fn add_mesh(&mut self, blas_id: BlasId, mesh: &Mesh, transform_address: Option<u64>)
        requires
            old(self)@.wf(),
            blas_id.v < old(self)@.blas_list.len(),
            blas_id.v < MAX_MESH_DATA_COUNT,
            old(self)@.total_geometry_count() < MAX_MESH_DATA_COUNT,
            !old(self)@.blas_list[blas_id.v as int].built,
            !old(self)@.blas_list[blas_id.v as int].allocated(),
            mesh.index_count <= u32::MAX,
            mesh.vertex_count <= u32::MAX,
        ensures
            final(self)@.blas_list.len() == old(self)@.blas_list.len(),
            forall|i: int|
                0 <= i < old(self)@.blas_list.len() && i != blas_id.v
                    ==> final(self)@.blas_list[i] == old(self)@.blas_list[i],
            final(self)@.blas_list[blas_id.v as int] == (BlasView {
                geometries: old(self)@.blas_list[blas_id.v as int].geometries.push(
                    GeometryDesc {
                        transform_address: if transform_address is Some {
                            transform_address->Some_0
                        } else {
                            0
                        },
                        index_format: mesh.index_format,
                        vertex_format: mesh.position_format,
                        index_count: mesh.index_count as u32,
                        vertex_count: mesh.vertex_count as u32,
                        index_buffer_address: mesh.index_buffer_address,
                        vertex_buffer_address: mesh.position_buffer_address,
                        vertex_stride: mesh.position_stride as u64,
                    },
                ),
                ..old(self)@.blas_list[blas_id.v as int]
            }),
            final(self)@.mesh_data.len() == old(self)@.mesh_data.len(),
            forall|i: int|
                0 <= i < old(self)@.mesh_data.len() && i != blas_id.v ==> final(self)@.mesh_data[i]
                    == old(self)@.mesh_data[i],
            final(self)@.mesh_data[blas_id.v as int].index_buffer_handle == mesh.index_srv.handle,
            final(self)@.mesh_data[blas_id.v as int].color_buffer_handle == mesh.color_srv.handle,
            final(self)@.tlas == old(self)@.tlas,
            final(self)@.srv == old(self)@.srv,
            final(self)@.wf(),
    {
        let geometry = GeometryDesc {
            transform_address: match transform_address {
                Some(a) => a,
                None => 0,
            },
            index_format: mesh.index_format,
            vertex_format: mesh.position_format,
            index_count: mesh.index_count as u32,
            vertex_count: mesh.vertex_count as u32,
            index_buffer_address: mesh.index_buffer_address,
            vertex_buffer_address: mesh.position_buffer_address,
            vertex_stride: mesh.position_stride as u64,
        };
        proof {
            lemma_geometry_sum_bounds(self@.blas_list, blas_id.v as int);
        }
        let mut blas = self.blas_list.remove(blas_id.v);
        blas.add_geometry(geometry);
        self.blas_list.insert(blas_id.v, blas);
        self.mesh_data[blas_id.v] = MeshData {
            index_buffer_handle: mesh.index_srv().handle(),
            color_buffer_handle: mesh.color_srv().handle(),
            reserved: [u32::MAX, u32::MAX],
        };
        proof {
            assert forall|i: int| 0 <= i < self@.blas_list.len() implies (
            #[trigger] self@.blas_list[i]).id == i by {
                if i != blas_id.v {
                    assert(self@.blas_list[i] == old(self)@.blas_list[i]);
                }
                assert(old(self)@.blas_list[i].id == i);
            }
        }
    }
}

impl RaytracingScene {
    /// Allocates a shader-resource view for the top-level structure's result
    /// buffer; the caller writes the view description, which carries the
    /// buffer's GPU address. Must be redone whenever that address changes.
    pub fn init_srv(&mut self, heap: &mut CbvSrvUavHeap)
        requires
            old(self)@.tlas.buffer is Some,
            old(heap)@.wf(),
            old(heap)@.view_count < old(heap)@.capacity,
        ensures
            final(self)@ == (SceneView { srv: Some(old(heap)@.view_count), ..old(self)@ }),
            final(heap)@ == old(heap)@.allocate_t().0,
            final(heap)@.wf(),
    {
        let srv = heap.create_srv();
        self.srv = Some(srv);
    }

    /// The top-level structure's shader-resource view, once created.
    pub fn srv(&self) -> (r: Option<&Srv>)
        ensures
            match r {
                Some(s) => self@.srv == Some(s.handle as int),
                None => self@.srv is None,
            },
    {
        self.srv.as_ref()
    }

    /// The per-mesh shader data table.
    pub fn mesh_data(&self) -> (r: &Vec<MeshData>)
        ensures
            r@ == self@.mesh_data,
    {
        &self.mesh_data
    }

    /// The top-level structure.
    pub fn tlas(&self) -> (r: &Tlas)
        ensures
            r@ == self@.tlas,
    {
        &self.tlas
    }

    /// One bottom-level structure by its identifier.
    pub fn blas(&self, id: BlasId) -> (r: &Blas)
        requires
            id.v < self@.blas_list.len(),
        ensures
            r@ == self@.blas_list[id.v as int],
    {
        &self.blas_list[id.v]
    }

    /// Number of bottom-level structures.
    pub fn blas_count(&self) -> (r: usize)
        ensures
            r == self@.blas_list.len(),
    {
        self.blas_list.len()
    }

    /// The scene's first full build, submitted and waited out on the given
    /// queue. For each bottom-level structure: allocate its buffers from the
    /// device-reported prebuild sizes, transition its scratch buffer for
    /// unordered access, record its full build, fence it with an
    /// unordered-access barrier, and append one instance record for it to
    /// the top-level structure. Then create and fill the instance upload
    /// buffer, allocate the top-level buffers, record the top-level build,
    /// and create the shader-resource view on its fresh result buffer.
    /// Returns the commands for the caller to record, in order, before it
    /// submits the checked-out context this function executes and waits on.
    pub fn build(
        &mut self,
        blas_prebuild: &Vec<PrebuildInfo>,
        tlas_prebuild: PrebuildInfo,
        mem: &mut GpuMemory,
        heap: &mut CbvSrvUavHeap,
        queue: &mut Queue,
    ) -> (cmds: Vec<GpuCommand>)
        requires
            old(self)@.wf(),
            blas_prebuild@.len() == old(self)@.blas_list.len(),
            forall|i: int|
                0 <= i < old(self)@.blas_list.len() ==> {
                    let b = #[trigger] old(self)@.blas_list[i];
                    &&& !b.built
                    &&& b.buffer is None
                    &&& b.scratch_buffer is None
                    &&& 0 < b.geometries.len() <= u32::MAX
                },
            !old(self)@.tlas.built,
            old(self)@.tlas.instances.len() == 0,
            old(self)@.tlas.buffer is None,
            old(self)@.tlas.scratch_buffer is None,
            old(self)@.tlas.instance_buffer is None,
            old(self)@.blas_list.len() <= U24_MAX,
            old(heap)@.wf(),
            old(heap)@.view_count < old(heap)@.capacity,
            old(queue)@.wf(),
            old(queue)@.allocator_count < usize::MAX,
            old(queue)@.command_list_count < usize::MAX,
            old(queue)@.fence_value < u64::MAX,
            old(mem)@.wf(),
            old(mem)@.next_address + prebuild_prefix_total(
                blas_prebuild@,
                old(self)@.blas_list.len() as int,
            ) + old(self)@.blas_list.len() * INSTANCE_DESC_SIZE + 1
                + tlas_prebuild.scratch_data_size + tlas_prebuild.result_data_max_size + 2
                <= u64::MAX,
        ensures
            final(self)@.wf(),
            final(self)@.blas_list.len() == old(self)@.blas_list.len(),
            forall|i: int|
                0 <= i < old(self)@.blas_list.len() ==> {
                    let b = #[trigger] final(self)@.blas_list[i];
                    let ob = old(self)@.blas_list[i];
                    &&& b.built
                    &&& b.id == ob.id
                    &&& b.build_flags == ob.build_flags
                    &&& b.geometries == ob.geometries
                    &&& b.buffer is Some
                    &&& b.buffer->Some_0.size == blas_prebuild@[i].result_data_max_size
                    &&& b.scratch_buffer is Some
                    &&& b.scratch_buffer->Some_0.size == blas_prebuild@[i].scratch_data_size
                    &&& 0 < b.buffer->Some_0.gpu_address
                    &&& 0 < b.scratch_buffer->Some_0.gpu_address
                },
            final(self)@.tlas.built,
            final(self)@.tlas.build_flags == old(self)@.tlas.build_flags,
            final(self)@.tlas.instances.len() == old(self)@.blas_list.len(),
            forall|i: int|
                0 <= i < old(self)@.blas_list.len() ==> {
                    let inst = #[trigger] final(self)@.tlas.instances[i];
                    &&& inst.acceleration_structure
                        == final(self)@.blas_list[i].buffer->Some_0.gpu_address
                    &&& inst.id_and_mask == spec_pack_id_mask(i as u32, FULL_INSTANCE_MASK)
                    &&& inst.offset_and_flags == spec_pack_offset_flags(0, 0)
                },
            forall|i: int, k: int|
                0 <= i < old(self)@.blas_list.len() && 0 <= k < 12
                    ==> final(self)@.tlas.instances[i].transform[k] == spec_instance_transform(
                    Option::<&ColMajor4x4>::None,
                    k,
                ),
            final(self)@.tlas.allocated(),
            final(self)@.tlas.buffer->Some_0.size == tlas_prebuild.result_data_max_size,
            final(self)@.tlas.scratch_buffer->Some_0.size == tlas_prebuild.scratch_data_size,
            final(self)@.tlas.instance_buffer is Some,
            final(self)@.tlas.instance_buffer->Some_0.size == old(self)@.blas_list.len()
                * INSTANCE_DESC_SIZE,
            final(self)@.tlas.owned_by(final(mem)@),
            final(self)@.srv == Some(old(heap)@.view_count as int),
            final(heap)@ == old(heap)@.allocate_t().0,
            final(heap)@.wf(),
            final(self)@.mesh_data == old(self)@.mesh_data,
            cmds@.len() == 3 * old(self)@.blas_list.len() + 2,
            forall|i: int|
                0 <= i < old(self)@.blas_list.len() ==> cmds@[i] == (GpuCommand::Transition {
                    address: final(self)@.blas_list[i].scratch_buffer->Some_0.gpu_address,
                    state_before: RESOURCE_STATE_COMMON,
                    state_after: RESOURCE_STATE_UNORDERED_ACCESS,
                }),
            forall|i: int|
                0 <= i < old(self)@.blas_list.len() ==> cmds@[old(self)@.blas_list.len() + i]
                    == GpuCommand::Build(final(self)@.blas_list[i].build_t(BuildMode::FullBuild)),
            forall|i: int|
                0 <= i < old(self)@.blas_list.len() ==> cmds@[2 * old(self)@.blas_list.len() + i]
                    == (GpuCommand::UavBarrier {
                    address: final(self)@.blas_list[i].buffer->Some_0.gpu_address,
                }),
            cmds@[3 * old(self)@.blas_list.len() as int] == (GpuCommand::WriteInstances {
                address: final(self)@.tlas.instance_buffer->Some_0.gpu_address,
                instance_count: old(self)@.blas_list.len() as usize,
            }),
            cmds@[3 * old(self)@.blas_list.len() as int + 1] == GpuCommand::Build(
                final(self)@.tlas.build_t(),
            ),
            final(queue)@ == ({
                let (q1, c) = old(queue)@.request_t();
                let (q2, fv) = q1.execute_t(c);
                q2.wait_t(fv)
            }),
            final(queue)@.fence_value == old(queue)@.fence_value + 1,
            final(queue)@.completed_value == old(queue)@.fence_value + 1,
            final(queue)@.wf(),
            final(mem)@.wf(),
            final(mem)@.next_address >= old(mem)@.next_address,
    {
        let ghost pre = self@;
        let ghost pre_mem = mem@;
        let n = self.blas_list.len();
        let ctx = queue.request_command_ctx();
        let mut cmds: Vec<GpuCommand> = Vec::new();

        let mut i: usize = 0;
        while i < n
            invariant
                pre.wf(),
                n == pre.blas_list.len(),
                blas_prebuild@.len() == n,
                0 <= i <= n,
                self@.blas_list.len() == n,
                forall|j: int| i <= j < n ==> self@.blas_list[j] == pre.blas_list[j],
                forall|j: int|
                    0 <= j < n ==> {
                        let b = #[trigger] pre.blas_list[j];
                        &&& !b.built
                        &&& b.buffer is None
                        &&& b.scratch_buffer is None
                        &&& 0 < b.geometries.len() <= u32::MAX
                    },
                forall|j: int|
                    0 <= j < i ==> {
                        let b = #[trigger] self@.blas_list[j];
                        let ob = pre.blas_list[j];
                        &&& !b.built
                        &&& b.id == ob.id
                        &&& b.build_flags == ob.build_flags
                        &&& b.geometries == ob.geometries
                        &&& b.buffer is Some
                        &&& b.buffer->Some_0.size == blas_prebuild@[j].result_data_max_size
                        &&& b.scratch_buffer is Some
                        &&& b.scratch_buffer->Some_0.size == blas_prebuild@[j].scratch_data_size
                        &&& 0 < b.buffer->Some_0.gpu_address
                        &&& 0 < b.scratch_buffer->Some_0.gpu_address
                    },
                cmds@.len() == i,
                forall|j: int|
                    0 <= j < i ==> cmds@[j] == (GpuCommand::Transition {
                        address: self@.blas_list[j].scratch_buffer->Some_0.gpu_address,
                        state_before: RESOURCE_STATE_COMMON,
                        state_after: RESOURCE_STATE_UNORDERED_ACCESS,
                    }),
                mem@.wf(),
                mem@.next_address == pre_mem.next_address + prebuild_prefix_total(
                    blas_prebuild@,
                    i as int,
                ),
                pre_mem.next_address + prebuild_prefix_total(blas_prebuild@, n as int) + n
                    * INSTANCE_DESC_SIZE + 1 + tlas_prebuild.scratch_data_size
                    + tlas_prebuild.result_data_max_size + 2 <= u64::MAX,
                self@.tlas == pre.tlas,
                self@.srv == pre.srv,
                self@.mesh_data == pre.mesh_data,
            decreases n - i,
        {
            proof {
                lemma_prebuild_prefix_monotonic(blas_prebuild@, i + 1, n as int);
            }
            let info = blas_prebuild[i];
            let ghost view0 = self@;
            let ghost list0 = self.blas_list@;
            let mut b = self.blas_list.remove(i);
            proof {
                list0.remove_ensures(i as int);
                assert(b@ == pre.blas_list[i as int]);
            }
            b.allocate_buffers(info, mem);
            let scratch_address = b.scratch_buffer().unwrap().gpu_address;
            cmds.push(
                GpuCommand::Transition {
                    address: scratch_address,
                    state_before: RESOURCE_STATE_COMMON,
                    state_after: RESOURCE_STATE_UNORDERED_ACCESS,
                },
            );
            let ghost list1 = self.blas_list@;
            let ghost b_snap = b;
            self.blas_list.insert(i, b);
            proof {
                list1.insert_ensures(i as int, b_snap);
                assert(self@.blas_list[i as int] == b_snap@);
                assert forall|j: int| 0 <= j < i implies (#[trigger] self@.blas_list[j]) == view0.blas_list[j] by {
                    assert(self.blas_list@[j] == list1.insert(i as int, b_snap)[j]);
                    assert(list1.insert(i as int, b_snap)[j] == list1[j]);
                    assert(list1[j] == list0[j]);
                    assert(view0.blas_list[j] == list0[j]@);
                }
                assert forall|j: int| i < j < n implies (#[trigger] self@.blas_list[j]) == view0.blas_list[j] by {
                    assert(self.blas_list@[j] == list1.insert(i as int, b_snap)[j]);
                    assert(list1.insert(i as int, b_snap)[j] == list1[j - 1]);
                    assert(list1[j - 1] == list0[j]);
                    assert(view0.blas_list[j] == list0[j]@);
                }
            }
            i = i + 1;
        }

        let ghost mem_mid = mem@;
        let ghost scene_mid = self@;
        let mut barriers: Vec<GpuCommand> = Vec::new();
        let mut i: usize = 0;
        while i < n
            invariant
                n == scene_mid.blas_list.len(),
                forall|j: int|
                    0 <= j < n ==> (#[trigger] scene_mid.blas_list[j]).id == j,
                0 <= i <= n,
                n <= U24_MAX,
                self@.blas_list.len() == n,
                forall|j: int| i <= j < n ==> self@.blas_list[j] == scene_mid.blas_list[j],
                forall|j: int|
                    0 <= j < i ==> self@.blas_list[j] == (BlasView {
                        built: true,
                        ..scene_mid.blas_list[j]
                    }),
                forall|j: int|
                    0 <= j < n ==> {
                        let b = #[trigger] scene_mid.blas_list[j];
                        &&& !b.built
                        &&& b.buffer is Some
                        &&& b.scratch_buffer is Some
                        &&& 0 < b.geometries.len() <= u32::MAX
                        &&& 0 < b.buffer->Some_0.gpu_address
                    },
                cmds@.len() == n + i,
                forall|j: int| 0 <= j < n ==> cmds@[j] == scratch_transition_cmd(scene_mid, j),
                forall|j: int|
                    0 <= j < i ==> cmds@[n + j] == GpuCommand::Build(
                        self@.blas_list[j].build_t(BuildMode::FullBuild),
                    ),
                barriers@.len() == i,
                forall|j: int|
                    0 <= j < i ==> barriers@[j] == (GpuCommand::UavBarrier {
                        address: self@.blas_list[j].buffer->Some_0.gpu_address,
                    }),
                self@.tlas.instances.len() == i,
                forall|j: int|
                    0 <= j < i ==> {
                        let inst = #[trigger] self@.tlas.instances[j];
                        &&& inst.acceleration_structure
                            == self@.blas_list[j].buffer->Some_0.gpu_address
                        &&& inst.id_and_mask == spec_pack_id_mask(j as u32, FULL_INSTANCE_MASK)
                        &&& inst.offset_and_flags == spec_pack_offset_flags(0, 0)
                        &&& forall|k: int|
                            0 <= k < 12 ==> inst.transform[k] == spec_instance_transform(
                                Option::<&ColMajor4x4>::None,
                                k,
                            )
                    },
                self@.tlas == (TlasView { instances: self@.tlas.instances, ..scene_mid.tlas }),
                scene_mid.tlas.buffer is None,
                scene_mid.tlas.scratch_buffer is None,
                scene_mid.tlas.instance_buffer is None,
                !scene_mid.tlas.built,
                self@.srv == scene_mid.srv,
                self@.mesh_data == scene_mid.mesh_data,
                mem@ == mem_mid,
            decreases n - i,
        {
            let ghost view0 = self@;
            let ghost list0 = self.blas_list@;
            let mut b = self.blas_list.remove(i);
            proof {
                list0.remove_ensures(i as int);
                assert(b@ == scene_mid.blas_list[i as int]);
            }
            let build_cmd = b.build();
            cmds.push(build_cmd);
            let buffer_address = b.result_buffer().unwrap().gpu_address;
            barriers.push(GpuCommand::UavBarrier { address: buffer_address });
            self.tlas.add_instance(&b, None);
            let ghost list1 = self.blas_list@;
            let ghost b_snap = b;
            self.blas_list.insert(i, b);
            proof {
                list1.insert_ensures(i as int, b_snap);
                assert(self@.blas_list[i as int] == b_snap@);
                assert forall|j: int| 0 <= j < i implies (#[trigger] self@.blas_list[j]) == view0.blas_list[j] by {
                    assert(self.blas_list@[j] == list1.insert(i as int, b_snap)[j]);
                    assert(list1.insert(i as int, b_snap)[j] == list1[j]);
                    assert(list1[j] == list0[j]);
                    assert(view0.blas_list[j] == list0[j]@);
                }
                assert forall|j: int| i < j < n implies (#[trigger] self@.blas_list[j]) == view0.blas_list[j] by {
                    assert(self.blas_list@[j] == list1.insert(i as int, b_snap)[j]);
                    assert(list1.insert(i as int, b_snap)[j] == list1[j - 1]);
                    assert(list1[j - 1] == list0[j]);
                    assert(view0.blas_list[j] == list0[j]@);
                }
            }
            i = i + 1;
        }
        let ghost cmds_b = cmds@;
        let ghost barriers_b = barriers@;
        cmds.append(&mut barriers);

        proof {
            lemma_prebuild_prefix_nonneg(blas_prebuild@, n as int);
            assert(cmds@ == cmds_b + barriers_b);
        }
        let write_cmd = self.tlas.init_instance_buffer(mem);
        cmds.push(write_cmd);

        let resized = self.tlas.allocate_buffers(tlas_prebuild, mem);
        let build_cmd = self.tlas.build();
        cmds.push(build_cmd);

        if resized {
            self.init_srv(heap);
        }

        let fence_value = queue.execute_commands(ctx);
        queue.wait_fence(fence_value);

        proof {
            assert forall|j: int| 0 <= j < self@.blas_list.len() implies (
            #[trigger] self@.blas_list[j]).id == j by {
                assert(self@.blas_list[j] == (BlasView { built: true, ..scene_mid.blas_list[j] }));
            }
            assert(cmds@.len() == 3 * n + 2);
            assert forall|j: int| 0 <= j < n implies #[trigger] cmds@[j] == (GpuCommand::Transition {
                address: self@.blas_list[j].scratch_buffer->Some_0.gpu_address,
                state_before: RESOURCE_STATE_COMMON,
                state_after: RESOURCE_STATE_UNORDERED_ACCESS,
            }) by {
                assert(cmds@[j] == (cmds_b + barriers_b)[j]);
                assert((cmds_b + barriers_b)[j] == cmds_b[j]);
                assert(cmds_b[j] == scratch_transition_cmd(scene_mid, j));
                assert(self@.blas_list[j] == (BlasView { built: true, ..scene_mid.blas_list[j] }));
            }
            assert forall|j: int| 0 <= j < n implies #[trigger] cmds@[n + j] == GpuCommand::Build(
                self@.blas_list[j].build_t(BuildMode::FullBuild),
            ) by {
                assert(cmds@[n + j] == (cmds_b + barriers_b)[n + j]);
                assert((cmds_b + barriers_b)[n + j] == cmds_b[n + j]);
                assert(self@.blas_list[j] == (BlasView { built: true, ..scene_mid.blas_list[j] }));
            }
            assert forall|j: int| 0 <= j < n implies #[trigger] cmds@[2 * n + j] == (
            GpuCommand::UavBarrier {
                address: self@.blas_list[j].buffer->Some_0.gpu_address,
            }) by {
                assert(cmds@[2 * n + j] == (cmds_b + barriers_b)[2 * n + j]);
                assert((cmds_b + barriers_b)[2 * n + j] == barriers_b[j]);
                assert(self@.blas_list[j] == (BlasView { built: true, ..scene_mid.blas_list[j] }));
            }
            assert(cmds@[3 * n as int] == write_cmd);
            assert(cmds@[3 * n as int + 1] == build_cmd);
        }
        cmds
    }

    /// The per-frame update pass, recorded into the caller's frame context:
    /// refit every bottom-level structure and fence each with an
    /// unordered-access barrier; reallocate the top-level buffers if the
    /// device-reported requirement outgrew them; re-upload the instance
    /// records; fully rebuild the top-level structure (the top level is
    /// always rebuilt, only bottom levels are refitted); recreate the
    /// shader-resource view only if the result buffer moved; and fence the
    /// result buffer so later shader reads observe the completed build.
    pub fn update(
        &mut self,
        tlas_prebuild: PrebuildInfo,
        mem: &mut GpuMemory,
        heap: &mut CbvSrvUavHeap,
    ) -> (cmds: Vec<GpuCommand>)
        requires
            old(self)@.wf(),
            forall|i: int|
                0 <= i < old(self)@.blas_list.len() ==> {
                    let b = #[trigger] old(self)@.blas_list[i];
                    &&& b.built
                    &&& b.allocated()
                    &&& b.updatable()
                    &&& 0 < b.geometries.len() <= u32::MAX
                },
            old(self)@.tlas.built,
            old(self)@.tlas.allocated(),
            old(self)@.tlas.instance_buffer is Some,
            old(self)@.tlas.instances.len() <= u32::MAX,
            old(self)@.tlas.owned_by(old(mem)@),
            old(mem)@.wf(),
            old(mem)@.next_address + tlas_prebuild.scratch_data_size
                + tlas_prebuild.result_data_max_size + 2 <= u64::MAX,
            old(heap)@.wf(),
            old(self)@.tlas.needs_result(tlas_prebuild) ==> old(heap)@.view_count < old(
                heap,
            )@.capacity,
        ensures
            final(self)@.wf(),
            final(self)@.blas_list == old(self)@.blas_list,
            final(self)@.mesh_data == old(self)@.mesh_data,
            final(self)@.tlas == (TlasView {
                built: true,
                ..old(self)@.tlas.allocate_buffers_t(tlas_prebuild, old(mem)@).0
            }),
            final(mem)@ == old(self)@.tlas.allocate_buffers_t(tlas_prebuild, old(mem)@).1,
            final(self)@.tlas.instances == old(self)@.tlas.instances,
            final(self)@.tlas.instance_buffer == old(self)@.tlas.instance_buffer,
            final(self)@.tlas.owned_by(final(mem)@),
            old(self)@.tlas.needs_result(tlas_prebuild) ==> final(self)@.srv == Some(
                old(heap)@.view_count as int,
            ) && final(heap)@ == old(heap)@.allocate_t().0,
            !old(self)@.tlas.needs_result(tlas_prebuild) ==> final(self)@.srv == old(self)@.srv
                && final(heap)@ == old(heap)@ && final(self)@.tlas.buffer == old(self)@.tlas.buffer,
            cmds@.len() == 2 * old(self)@.blas_list.len() + 3,
            forall|i: int|
                0 <= i < old(self)@.blas_list.len() ==> cmds@[i] == GpuCommand::Build(
                    old(self)@.blas_list[i].build_t(BuildMode::Update),
                ),
            forall|i: int|
                0 <= i < old(self)@.blas_list.len() ==> cmds@[old(self)@.blas_list.len() + i] == (
                GpuCommand::UavBarrier {
                    address: old(self)@.blas_list[i].buffer->Some_0.gpu_address,
                }),
            cmds@[2 * old(self)@.blas_list.len() as int] == (GpuCommand::WriteInstances {
                address: old(self)@.tlas.instance_buffer->Some_0.gpu_address,
                instance_count: old(self)@.tlas.instances.len() as usize,
            }),
            cmds@[2 * old(self)@.blas_list.len() as int + 1] == GpuCommand::Build(
                final(self)@.tlas.build_t(),
            ),
            cmds@[2 * old(self)@.blas_list.len() as int + 2] == (GpuCommand::UavBarrier {
                address: final(self)@.tlas.buffer->Some_0.gpu_address,
            }),
            final(mem)@.wf(),
            final(heap)@.wf(),
    {
        let ghost pre = self@;
        let n = self.blas_list.len();
        let mut cmds: Vec<GpuCommand> = Vec::new();
        let mut barriers: Vec<GpuCommand> = Vec::new();

        let mut i: usize = 0;
        while i < n
            invariant
                pre.wf(),
                n == pre.blas_list.len(),
                0 <= i <= n,
                self@ == pre,
                forall|j: int|
                    0 <= j < n ==> {
                        let b = #[trigger] pre.blas_list[j];
                        &&& b.built
                        &&& b.allocated()
                        &&& b.updatable()
                        &&& 0 < b.geometries.len() <= u32::MAX
                    },
                cmds@.len() == i,
                forall|j: int|
                    0 <= j < i ==> cmds@[j] == GpuCommand::Build(
                        pre.blas_list[j].build_t(BuildMode::Update),
                    ),
                barriers@.len() == i,
                forall|j: int|
                    0 <= j < i ==> barriers@[j] == (GpuCommand::UavBarrier {
                        address: pre.blas_list[j].buffer->Some_0.gpu_address,
                    }),
            decreases n - i,
        {
            let ghost view0 = self@;
            let ghost list0 = self.blas_list@;
            let mut b = self.blas_list.remove(i);
            proof {
                list0.remove_ensures(i as int);
                assert(b@ == pre.blas_list[i as int]);
            }
            let update_cmd = b.update();
            cmds.push(update_cmd);
            let buffer_address = b.result_buffer().unwrap().gpu_address;
            barriers.push(GpuCommand::UavBarrier { address: buffer_address });
            let ghost list1 = self.blas_list@;
            let ghost b_snap = b;
            self.blas_list.insert(i, b);
            proof {
                list1.insert_ensures(i as int, b_snap);
                assert forall|j: int|
                    0 <= j < n implies (#[trigger] self@.blas_list[j]) == view0.blas_list[j] by {
                    if j < i {
                        assert(self.blas_list@[j] == list1.insert(i as int, b_snap)[j]);
                        assert(list1.insert(i as int, b_snap)[j] == list1[j]);
                        assert(list1[j] == list0[j]);
                    } else if j == i {
                        assert(self@.blas_list[j] == b_snap@);
                    } else {
                        assert(self.blas_list@[j] == list1.insert(i as int, b_snap)[j]);
                        assert(list1.insert(i as int, b_snap)[j] == list1[j - 1]);
                        assert(list1[j - 1] == list0[j]);
                    }
                    assert(view0.blas_list[j] == list0[j]@);
                }
                assert(self@.blas_list =~= view0.blas_list);
                assert(self@ == pre);
            }
            i = i + 1;
        }
        let ghost cmds_b = cmds@;
        let ghost barriers_b = barriers@;
        cmds.append(&mut barriers);
        proof {
            assert(cmds@ == cmds_b + barriers_b);
        }

        let instance_buffer = self.tlas.instance_buffer().unwrap();
        let write_cmd = GpuCommand::WriteInstances {
            address: instance_buffer.gpu_address,
            instance_count: self.tlas.instance_count(),
        };
        cmds.push(write_cmd);

        let resized = self.tlas.allocate_buffers(tlas_prebuild, mem);
        let build_cmd = self.tlas.build();
        cmds.push(build_cmd);

        if resized {
            self.init_srv(heap);
        }

        let result_buffer = self.tlas.result_buffer().unwrap();
        cmds.push(GpuCommand::UavBarrier { address: result_buffer.gpu_address });

        proof {
            assert(cmds@.len() == 2 * n + 3);
            assert forall|j: int| 0 <= j < n implies #[trigger] cmds@[j] == GpuCommand::Build(
                pre.blas_list[j].build_t(BuildMode::Update),
            ) by {
                assert(cmds@[j] == (cmds_b + barriers_b)[j]);
                assert((cmds_b + barriers_b)[j] == cmds_b[j]);
            }
            assert forall|j: int| 0 <= j < n implies #[trigger] cmds@[n + j] == (
            GpuCommand::UavBarrier {
                address: pre.blas_list[j].buffer->Some_0.gpu_address,
            }) by {
                assert(cmds@[n + j] == (cmds_b + barriers_b)[n + j]);
                assert((cmds_b + barriers_b)[n + j] == barriers_b[j]);
            }
        }
        cmds
    }
}

/// The scratch-buffer transition recorded for the j-th bottom-level
/// structure of the given scene state.
spec fn scratch_transition_cmd(s: SceneView, j: int) -> GpuCommand {
    GpuCommand::Transition {
        address: s.blas_list[j].scratch_buffer->Some_0.gpu_address,
        state_before: RESOURCE_STATE_COMMON,
        state_after: RESOURCE_STATE_UNORDERED_ACCESS,
    }
}

/// Prefix totals over the same list never decrease.
proof fn lemma_prebuild_prefix_monotonic(infos: Seq<PrebuildInfo>, i: int, j: int)
    requires
        0 <= i <= j,
    ensures
        prebuild_prefix_total(infos, i) <= prebuild_prefix_total(infos, j),
    decreases j - i,
{
    if i < j {
        lemma_prebuild_prefix_monotonic(infos, i, j - 1);
    }
}

proof fn lemma_prebuild_prefix_nonneg(infos: Seq<PrebuildInfo>, k: int)
    ensures
        prebuild_prefix_total(infos, k) >= 0,
    decreases k,
{
    if k > 0 {
        lemma_prebuild_prefix_nonneg(infos, k - 1);
    }
}

/// Each structure's geometry count is bounded by the total over the list.
proof fn lemma_geometry_sum_bounds(s: Seq<BlasView>, i: int)
    requires
        0 <= i < s.len(),
    ensures
        s[i].geometries.len() <= geometry_sum(s),
        geometry_sum(s) >= 0,
    decreases s.len(),
{
    lemma_geometry_sum_nonneg(s.drop_first());
    if i > 0 {
        lemma_geometry_sum_bounds(s.drop_first(), i - 1);
    }
}

proof fn lemma_geometry_sum_nonneg(s: Seq<BlasView>)
    ensures
        geometry_sum(s) >= 0,
    decreases s.len(),
{
    if s.len() > 0 {
        lemma_geometry_sum_nonneg(s.drop_first());
    }
}

} // verus!
