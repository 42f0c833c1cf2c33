//! The resource graph's static contract: buffer sizes, the binding slots of
//! each bind group layout, the resource bound at each slot, the layouts each
//! pipeline is built against, and the order in which resources are built.
use vstd::prelude::*;

use crate::params::{FLOAT_MINUS_ONE, FLOAT_ONE};

verus! {

/// Bytes in the time uniform: one float.
pub const TIME_UNIFORM_BYTES: u64 = 4;

/// Bytes in the ray parameters: three floats.
pub const RAY_PARAMS_BYTES: u64 = 12;

/// Bytes in the view parameters: seven floats.
pub const VIEW_PARAMS_BYTES: u64 = 28;

/// Bytes in the terrain parameters: three 32-bit integers.
pub const TERRAIN_PARAMS_BYTES: u64 = 12;

/// Bytes in one vertex: two floats.
pub const VERTEX_BYTES: u64 = 8;

/// Vertices in the full-screen quad: two triangles.
pub const QUAD_VERTICES: u32 = 6;

/// Bytes in the generic debug record: four floats.
pub const GENERIC_DEBUG_BYTES: u64 = 16;

/// Bytes in each debug array: 512 records of four floats.
pub const DEBUG_ARRAY_BYTES: u64 = 8192;

/// Side of the square terrain texture, in texels.
pub const TERRAIN_TEXTURE_SIZE: u32 = 2048;

/// Bytes of the terrain texture's initial contents: four floats per texel.
pub const TERRAIN_TEXTURE_BYTES: usize = 67_108_864;

/// The kind of resource a binding slot takes.
#[derive(Clone, Copy, Debug, PartialEq, Eq, Structural)]
pub enum BindingKind {
    UniformBuffer,
    StorageBuffer,
    /// A read-write storage texture of four 32-bit floats per texel.
    StorageTexture,
    /// A filterable float texture, sampled.
    SampledTexture,
    /// A filtering sampler.
    Sampler,
}

/// One slot of a bind group layout.
#[derive(Clone, Copy, Debug, PartialEq, Eq, Structural)]
pub struct LayoutEntry {
    pub binding: u32,
    pub kind: BindingKind,
    /// The least size of a bound buffer, in bytes; 0 for textures and samplers.
    pub min_size: u64,
    pub fragment: bool,
    pub compute: bool,
}

/// The resources that bind groups refer to.
#[derive(Clone, Copy, Debug, PartialEq, Eq, Structural)]
pub enum Resource {
    TimeUniform,
    RayParams,
    ViewParams,
    DebugArray1,
    DebugArray2,
    GenericDebug,
    TerrainView,
    TerrainSampler,
}

/// One entry of a bind group: a resource at a slot.
#[derive(Clone, Copy, Debug, PartialEq, Eq, Structural)]
pub struct GroupEntry {
    pub binding: u32,
    pub resource: Resource,
}

/// The bind groups, each with a layout of its own.
#[derive(Clone, Copy, Debug, PartialEq, Eq, Structural)]
pub enum BindGroupId {
    /// The time uniform; render and compute.
    Uniform,
    /// Parameters and debug buffers, for the fragment stage.
    Fragment,
    /// Debug buffers, for the compute stage.
    Compute,
    /// The terrain map as a read-write storage texture, for the compute stage.
    Texture,
    /// The terrain map sampled, for the fragment stage.
    SampledTexture,
}

/// The two pipelines.
#[derive(Clone, Copy, Debug, PartialEq, Eq, Structural)]
pub enum PipelineId {
    Render,
    GenerateTerrain,
}

/// The phases of building the resource graph, in their mandatory order.
#[derive(Clone, Copy, Debug, PartialEq, Eq, Structural)]
pub enum BuildStage {
    Nothing,
    Buffers,
    Textures,
    BindGroups,
    Pipelines,
}

/// The size of a buffer resource in bytes; 0 for textures and samplers.
pub open spec fn resource_size(r: Resource) -> u64 {
    match r {
        Resource::TimeUniform => TIME_UNIFORM_BYTES,
        Resource::RayParams => RAY_PARAMS_BYTES,
        Resource::ViewParams => VIEW_PARAMS_BYTES,
        Resource::DebugArray1 => DEBUG_ARRAY_BYTES,
        Resource::DebugArray2 => DEBUG_ARRAY_BYTES,
        Resource::GenericDebug => GENERIC_DEBUG_BYTES,
        _ => 0,
    }
}

/// The slot kinds that a resource can be bound to.
pub open spec fn resource_fits_kind(r: Resource, k: BindingKind) -> bool {
    match r {
        Resource::TimeUniform => k == BindingKind::UniformBuffer,
        Resource::TerrainView => k == BindingKind::StorageTexture || k == BindingKind::SampledTexture,
        Resource::TerrainSampler => k == BindingKind::Sampler,
        _ => k == BindingKind::StorageBuffer,
    }
}

/// A buffer slot visible to the fragment and compute stages.
pub open spec fn shared_buffer_slot(binding: u32, kind: BindingKind, min_size: u64) -> LayoutEntry {
    LayoutEntry { binding, kind, min_size, fragment: true, compute: true }
}

/// The slots of each bind group layout, in order.
pub open spec fn layout_of(g: BindGroupId) -> Seq<LayoutEntry> {
    match g {
        BindGroupId::Uniform => seq![
            shared_buffer_slot(0, BindingKind::UniformBuffer, TIME_UNIFORM_BYTES),
        ],
        BindGroupId::Fragment => seq![
            shared_buffer_slot(0, BindingKind::StorageBuffer, RAY_PARAMS_BYTES),
            shared_buffer_slot(1, BindingKind::StorageBuffer, VIEW_PARAMS_BYTES),
            shared_buffer_slot(7, BindingKind::StorageBuffer, DEBUG_ARRAY_BYTES),
            shared_buffer_slot(8, BindingKind::StorageBuffer, DEBUG_ARRAY_BYTES),
            shared_buffer_slot(9, BindingKind::StorageBuffer, GENERIC_DEBUG_BYTES),
        ],
        BindGroupId::Compute => seq![
            shared_buffer_slot(7, BindingKind::StorageBuffer, DEBUG_ARRAY_BYTES),
            shared_buffer_slot(8, BindingKind::StorageBuffer, DEBUG_ARRAY_BYTES),
            shared_buffer_slot(9, BindingKind::StorageBuffer, GENERIC_DEBUG_BYTES),
        ],
        BindGroupId::Texture => seq![
            LayoutEntry {
                binding: 0,
                kind: BindingKind::StorageTexture,
                min_size: 0,
                fragment: false,
                compute: true,
            },
        ],
        BindGroupId::SampledTexture => seq![
            LayoutEntry {
                binding: 0,
                kind: BindingKind::SampledTexture,
                min_size: 0,
                fragment: true,
                compute: false,
            },
            LayoutEntry {
                binding: 1,
                kind: BindingKind::Sampler,
                min_size: 0,
                fragment: true,
                compute: false,
            },
        ],
    }
}

/// The entries of each bind group, in order.
pub open spec fn group_of(g: BindGroupId) -> Seq<GroupEntry> {
    match g {
        BindGroupId::Uniform => seq![GroupEntry { binding: 0, resource: Resource::TimeUniform }],
        BindGroupId::Fragment => seq![
            GroupEntry { binding: 0, resource: Resource::RayParams },
            GroupEntry { binding: 1, resource: Resource::ViewParams },
            GroupEntry { binding: 7, resource: Resource::DebugArray1 },
            GroupEntry { binding: 8, resource: Resource::DebugArray2 },
            GroupEntry { binding: 9, resource: Resource::GenericDebug },
        ],
        BindGroupId::Compute => seq![
            GroupEntry { binding: 7, resource: Resource::DebugArray1 },
            GroupEntry { binding: 8, resource: Resource::DebugArray2 },
            GroupEntry { binding: 9, resource: Resource::GenericDebug },
        ],
        BindGroupId::Texture => seq![GroupEntry { binding: 0, resource: Resource::TerrainView }],
        BindGroupId::SampledTexture => seq![
            GroupEntry { binding: 0, resource: Resource::TerrainView },
            GroupEntry { binding: 1, resource: Resource::TerrainSampler },
        ],
    }
}

/// The layouts a pipeline is built against, by group index.
pub open spec fn pipeline_groups(p: PipelineId) -> Seq<BindGroupId> {
    match p {
        PipelineId::Render => seq![
            BindGroupId::Uniform,
            BindGroupId::Fragment,
            BindGroupId::SampledTexture,
        ],
        PipelineId::GenerateTerrain => seq![
            BindGroupId::Uniform,
            BindGroupId::Compute,
            BindGroupId::Texture,
        ],
    }
}

/// The entry `e` fills the slot `l`: same binding, a fitting kind, and a
/// buffer at least as large as the slot asks.
pub open spec fn entry_fits(l: LayoutEntry, e: GroupEntry) -> bool {
    &&& l.binding == e.binding
    &&& resource_fits_kind(e.resource, l.kind)
    &&& resource_size(e.resource) >= l.min_size
}

/// A bind group matches a layout: one entry per slot, in slot order, each
/// filling its slot, and no slot number used twice.
pub open spec fn group_matches(layout: Seq<LayoutEntry>, group: Seq<GroupEntry>) -> bool {
    &&& layout.len() == group.len()
    &&& forall|i: int| 0 <= i < layout.len() ==> #[trigger] entry_fits(layout[i], group[i])
    &&& forall|i: int, j: int|
        0 <= i < j < layout.len() ==> #[trigger] layout[i].binding != #[trigger] layout[j].binding
}

/// The size in bytes of a buffer resource; 0 for textures and samplers.
pub fn buffer_size(r: Resource) -> (s: u64)
    ensures
        s == resource_size(r),
{
    match r {
        Resource::TimeUniform => TIME_UNIFORM_BYTES,
        Resource::RayParams => RAY_PARAMS_BYTES,
        Resource::ViewParams => VIEW_PARAMS_BYTES,
        Resource::DebugArray1 => DEBUG_ARRAY_BYTES,
        Resource::DebugArray2 => DEBUG_ARRAY_BYTES,
        Resource::GenericDebug => GENERIC_DEBUG_BYTES,
        _ => 0,
    }
}

fn shared_slot(binding: u32, kind: BindingKind, min_size: u64) -> (r: LayoutEntry)
    ensures
        r == shared_buffer_slot(binding, kind, min_size),
{
    LayoutEntry { binding, kind, min_size, fragment: true, compute: true }
}

/// The slots of a bind group layout.
pub fn layout_entries(g: BindGroupId) -> (r: Vec<LayoutEntry>)
    ensures
        r@ == layout_of(g),
{
    let r = match g {
        BindGroupId::Uniform => vec![
            shared_slot(0, BindingKind::UniformBuffer, TIME_UNIFORM_BYTES),
        ],
        BindGroupId::Fragment => vec![
            shared_slot(0, BindingKind::StorageBuffer, RAY_PARAMS_BYTES),
            shared_slot(1, BindingKind::StorageBuffer, VIEW_PARAMS_BYTES),
            shared_slot(7, BindingKind::StorageBuffer, DEBUG_ARRAY_BYTES),
            shared_slot(8, BindingKind::StorageBuffer, DEBUG_ARRAY_BYTES),
            shared_slot(9, BindingKind::StorageBuffer, GENERIC_DEBUG_BYTES),
        ],
        BindGroupId::Compute => vec![
            shared_slot(7, BindingKind::StorageBuffer, DEBUG_ARRAY_BYTES),
            shared_slot(8, BindingKind::StorageBuffer, DEBUG_ARRAY_BYTES),
            shared_slot(9, BindingKind::StorageBuffer, GENERIC_DEBUG_BYTES),
        ],
        BindGroupId::Texture => vec![
            LayoutEntry {
                binding: 0,
                kind: BindingKind::StorageTexture,
                min_size: 0,
                fragment: false,
                compute: true,
            },
        ],
        BindGroupId::SampledTexture => vec![
            LayoutEntry {
                binding: 0,
                kind: BindingKind::SampledTexture,
                min_size: 0,
                fragment: true,
                compute: false,
            },
            LayoutEntry {
                binding: 1,
                kind: BindingKind::Sampler,
                min_size: 0,
                fragment: true,
                compute: false,
            },
        ],
    };
    assert(r@ =~= layout_of(g));
    r
}

/// The entries of a bind group.
pub fn group_entries(g: BindGroupId) -> (r: Vec<GroupEntry>)
    ensures
        r@ == group_of(g),
{
    let r = match g {
        BindGroupId::Uniform => vec![GroupEntry { binding: 0, resource: Resource::TimeUniform }],
        BindGroupId::Fragment => vec![
            GroupEntry { binding: 0, resource: Resource::RayParams },
            GroupEntry { binding: 1, resource: Resource::ViewParams },
            GroupEntry { binding: 7, resource: Resource::DebugArray1 },
            GroupEntry { binding: 8, resource: Resource::DebugArray2 },
            GroupEntry { binding: 9, resource: Resource::GenericDebug },
        ],
        BindGroupId::Compute => vec![
            GroupEntry { binding: 7, resource: Resource::DebugArray1 },
            GroupEntry { binding: 8, resource: Resource::DebugArray2 },
            GroupEntry { binding: 9, resource: Resource::GenericDebug },
        ],
        BindGroupId::Texture => vec![GroupEntry { binding: 0, resource: Resource::TerrainView }],
        BindGroupId::SampledTexture => vec![
            GroupEntry { binding: 0, resource: Resource::TerrainView },
            GroupEntry { binding: 1, resource: Resource::TerrainSampler },
        ],
    };
    assert(r@ =~= group_of(g));
    r
}

/// The layouts a pipeline is built against, by group index.
pub fn pipeline_bind_groups(p: PipelineId) -> (r: Vec<BindGroupId>)
    ensures
        r@ == pipeline_groups(p),
{
    let r = match p {
        PipelineId::Render => vec![
            BindGroupId::Uniform,
            BindGroupId::Fragment,
            BindGroupId::SampledTexture,
        ],
        PipelineId::GenerateTerrain => vec![
            BindGroupId::Uniform,
            BindGroupId::Compute,
            BindGroupId::Texture,
        ],
    };
    assert(r@ =~= pipeline_groups(p));
    r
}

fn fits_kind(r: Resource, k: BindingKind) -> (b: bool)
    ensures
        b == resource_fits_kind(r, k),
{
    match r {
        Resource::TimeUniform => k == BindingKind::UniformBuffer,
        Resource::TerrainView => k == BindingKind::StorageTexture || k == BindingKind::SampledTexture,
        Resource::TerrainSampler => k == BindingKind::Sampler,
        _ => k == BindingKind::StorageBuffer,
    }
}

/// Whether `group` matches `layout` slot for slot; the check run once at
/// startup before a bind group is created.
pub fn check_group(layout: &Vec<LayoutEntry>, group: &Vec<GroupEntry>) -> (r: bool)
    ensures
        r == group_matches(layout@, group@),
{
    if layout.len() != group.len() {
        return false;
    }
    let n = layout.len();
    let mut i: usize = 0;
    while i < n
        invariant
            n == layout@.len(),
            n == group@.len(),
            i <= n,
            forall|k: int| 0 <= k < i ==> #[trigger] entry_fits(layout@[k], group@[k]),
            forall|a: int, b: int|
                0 <= a < b < i ==> #[trigger] layout@[a].binding != #[trigger] layout@[b].binding,
        decreases n - i,
    {
        let l = layout[i];
        let e = group[i];
        if l.binding != e.binding || !fits_kind(e.resource, l.kind) || buffer_size(e.resource)
            < l.min_size {
            assert(!entry_fits(layout@[i as int], group@[i as int]));
            return false;
        }
        let mut j: usize = 0;
        while j < i
            invariant
                i < n,
                n == layout@.len(),
                j <= i,
                l == layout@[i as int],
                forall|a: int| 0 <= a < j ==> layout@[a].binding != l.binding,
            decreases i - j,
        {
            if layout[j].binding == l.binding {
                assert(layout@[j as int].binding == layout@[i as int].binding);
                return false;
            }
            j = j + 1;
        }
        i = i + 1;
    }
    true
}

/// Every bind group matches its own layout: each slot is filled by a resource
/// of a fitting kind and size, and no slot number is used twice.
pub proof fn lemma_groups_match_layouts(g: BindGroupId)
    ensures
        group_matches(layout_of(g), group_of(g)),
{
    let l = layout_of(g);
    let e = group_of(g);
    assert forall|i: int| 0 <= i < l.len() implies #[trigger] entry_fits(l[i], e[i]) by {}
}

/// The stage that must come right after `s`; the last stage has none.
pub open spec fn next_stage(s: BuildStage) -> Option<BuildStage> {
    match s {
        BuildStage::Nothing => Some(BuildStage::Buffers),
        BuildStage::Buffers => Some(BuildStage::Textures),
        BuildStage::Textures => Some(BuildStage::BindGroups),
        BuildStage::BindGroups => Some(BuildStage::Pipelines),
        BuildStage::Pipelines => None,
    }
}

/// How far the resource graph has been built.
#[derive(Debug)]
pub struct BuildProgress {
    stage: BuildStage,
}

impl BuildProgress {
    /// The last stage completed.
    pub closed spec fn stage(&self) -> BuildStage {
        self.stage
    }

    /// Nothing built yet.
    pub fn new() -> (r: BuildProgress)
        ensures
            r.stage() == BuildStage::Nothing,
    {
        BuildProgress { stage: BuildStage::Nothing }
    }

    /// Records that `next` was built; refused (and nothing recorded) unless
    /// `next` is the stage that comes right after the last one.
    pub fn advance(&mut self, next: BuildStage) -> (r: bool)
        ensures
            r == (next_stage(old(self).stage()) == Some(next)),
            final(self).stage() == if r {
                next
            } else {
                old(self).stage()
            },
    {
        let expected = match self.stage {
            BuildStage::Nothing => Some(BuildStage::Buffers),
            BuildStage::Buffers => Some(BuildStage::Textures),
            BuildStage::Textures => Some(BuildStage::BindGroups),
            BuildStage::BindGroups => Some(BuildStage::Pipelines),
            BuildStage::Pipelines => None,
        };
        match expected {
            Some(s) => {
                if s == next {
                    self.stage = next;
                    true
                } else {
                    false
                }
            },
            None => false,
        }
    }
}

/// The full-screen quad as vertex words: two triangles of two floats per
/// vertex, (-1,-1) (1,-1) (-1,1) and (1,-1) (1,1) (-1,1).
pub open spec fn quad_words() -> Seq<u32> {
    seq![
        FLOAT_MINUS_ONE, FLOAT_MINUS_ONE,
        FLOAT_ONE, FLOAT_MINUS_ONE,
        FLOAT_MINUS_ONE, FLOAT_ONE,
        FLOAT_ONE, FLOAT_MINUS_ONE,
        FLOAT_ONE, FLOAT_ONE,
        FLOAT_MINUS_ONE, FLOAT_ONE,
    ]
}

/// The vertex buffer's contents, as words.
pub fn vertex_words() -> (r: Vec<u32>)
    ensures
        r@ == quad_words(),
        r@.len() == 2 * QUAD_VERTICES,
{
    let r = vec![
        FLOAT_MINUS_ONE, FLOAT_MINUS_ONE,
        FLOAT_ONE, FLOAT_MINUS_ONE,
        FLOAT_MINUS_ONE, FLOAT_ONE,
        FLOAT_ONE, FLOAT_MINUS_ONE,
        FLOAT_ONE, FLOAT_ONE,
        FLOAT_MINUS_ONE, FLOAT_ONE,
    ];
    assert(r@ =~= quad_words());
    r
}

} // verus!
