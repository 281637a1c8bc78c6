//! The bridge driver: owns the resource tables, the identifier allocator,
//! the pipeline cache and the pending submission pool, and translates
//! submitted command lists into operation buffers.
//!
//! Engine-contract violations (a duplicated handle, a command naming a
//! dead render buffer or geometry, a bitmap whose byte count does not
//! match its format) are reported as errors for the embedder to treat as
//! fatal; a draw naming a missing *sampled* texture is not an error — the
//! placeholder texture is substituted so the draw still executes.

use vstd::prelude::*;

use crate::gpu::bitmap::{upload_matches, upload_of, BitmapData, TextureUpload};
use crate::gpu::ids::IdAllocator;
use crate::gpu::ops::{spec_uniforms_of, uniforms_of, DrawOp, GpuOp, TextureSource};
use crate::gpu::pipeline::{spec_cache_after, spec_slot_of, PipelineCache, PipelineKey};
use crate::gpu::state::{
    spec_texture_format_of, GpuCommand, RenderBufferDesc, TexFormat, VertexLayout,
};
use crate::gpu::table::ResourceTable;

verus! {

/// The three kinds of resources the engine names by handle.
#[derive(Clone, Copy, PartialEq, Eq, Structural, Debug)]
pub enum ResourceKind {
    /// A texture and its view.
    Texture,
    /// A render buffer.
    RenderBuffer,
    /// A geometry's vertex and index buffers.
    Geometry,
}

/// An engine-contract violation.  The embedder treats every variant as
/// fatal: the engine never violates its contract in a correct build, so
/// none of these is recovered from.
#[derive(Clone, Copy, PartialEq, Eq, Structural, Debug)]
pub enum BridgeError {
    /// A create named a handle that is still live.
    DuplicateId {
        /// The resource kind whose table already holds the handle.
        kind: ResourceKind,
        /// The duplicated handle.
        id: u32,
    },
    /// An update or a command named a handle with no live resource.
    UnknownId {
        /// The resource kind whose table lacks the handle.
        kind: ResourceKind,
        /// The unknown handle.
        id: u32,
    },
    /// A bitmap's pixel buffer does not match its declared extent and
    /// format, or its expansion would not be representable.
    MalformedBitmap {
        /// The texture handle the bitmap was supplied for.
        id: u32,
    },
    /// A texture update's extent differs from the extent the texture was
    /// created with.
    SizeMismatch {
        /// The updated texture's handle.
        id: u32,
    },
    /// A draw would sample the very texture it renders into, which no
    /// graphics API allows.
    TargetSampled {
        /// The texture serving as both target and sampling source.
        id: u32,
    },
}

/// The bridge's record of one GPU texture it owns.
#[derive(Clone, Copy, PartialEq, Eq, Structural, Debug)]
pub struct TextureEntry {
    /// Width in pixels.
    pub width: u32,
    /// Height in pixels.
    pub height: u32,
    /// Storage format.
    pub format: TexFormat,
    /// Whether the texture was created as a render target (from an empty
    /// bitmap) and so carries render-attachment usage.
    pub render_attachment: bool,
}

/// The bridge's record of one geometry it owns.
#[derive(Debug)]
pub struct GeometryEntry {
    /// Vertex layout tag.
    pub layout: VertexLayout,
    /// Raw vertex bytes, as the engine wrote them.
    pub vertices: Vec<u8>,
    /// Raw index bytes (32-bit indices), as the engine wrote them.
    pub indices: Vec<u8>,
}

/// What the backend must do for a newly created texture: allocate with
/// this extent, format and usage, and perform the initial upload if the
/// bitmap carried content.
#[derive(Debug)]
pub struct TextureInit {
    /// Width in pixels.
    pub width: u32,
    /// Height in pixels.
    pub height: u32,
    /// Storage format.
    pub format: TexFormat,
    /// Whether render-attachment usage is needed.
    pub render_attachment: bool,
    /// The initial upload, absent for an empty (render-target) bitmap.
    pub upload: Option<TextureUpload>,
}

/// The table entry a bitmap induces.
pub open spec fn spec_texture_entry_of(b: &BitmapData) -> TextureEntry {
    TextureEntry {
        width: b.width,
        height: b.height,
        format: spec_texture_format_of(b.format),
        render_attachment: b.is_empty,
    }
}

/// Whether `init` is the creation order the bitmap `b` induces: the
/// bitmap's extent, the texture format its pixel format maps to,
/// render-attachment usage exactly for an empty bitmap, and the converted
/// initial upload exactly for a content-bearing one.
pub open spec fn texture_init_matches(b: &BitmapData, init: &TextureInit) -> bool {
    &&& init.width == b.width
    &&& init.height == b.height
    &&& init.format == spec_texture_format_of(b.format)
    &&& init.render_attachment == b.is_empty
    &&& match init.upload {
        Some(u) => !b.is_empty && upload_matches(b, &u),
        None => b.is_empty,
    }
}

/// The texture a draw samples under the soft-missing-resource policy:
/// a live handle's texture, the placeholder otherwise.
pub open spec fn spec_texture_source(tex: Map<u32, TextureEntry>, id: u32) -> TextureSource {
    if tex.contains_key(id) {
        TextureSource::Texture(id)
    } else {
        TextureSource::Placeholder
    }
}

/// The fault a single command trips over, if any: an unknown render
/// buffer, a render buffer whose backing texture is gone, a draw that
/// samples its own target, or a draw naming an unknown geometry.
/// Missing *sampled* textures are no fault.
pub open spec fn spec_cmd_fault(
    rbs: Map<u32, RenderBufferDesc>,
    tex: Map<u32, TextureEntry>,
    geos: Map<u32, GeometryEntry>,
    cmd: GpuCommand,
) -> Option<BridgeError> {
    match cmd {
        GpuCommand::ClearRenderBuffer { render_buffer_id } => {
            if !rbs.contains_key(render_buffer_id) {
                Some(BridgeError::UnknownId { kind: ResourceKind::RenderBuffer, id: render_buffer_id })
            } else if !tex.contains_key(rbs[render_buffer_id].texture_id) {
                Some(
                    BridgeError::UnknownId {
                        kind: ResourceKind::Texture,
                        id: rbs[render_buffer_id].texture_id,
                    },
                )
            } else {
                None
            }
        },
        GpuCommand::DrawGeometry { render_buffer_id, geometry_id, state, .. } => {
            if !rbs.contains_key(render_buffer_id) {
                Some(BridgeError::UnknownId { kind: ResourceKind::RenderBuffer, id: render_buffer_id })
            } else if !tex.contains_key(rbs[render_buffer_id].texture_id) {
                Some(
                    BridgeError::UnknownId {
                        kind: ResourceKind::Texture,
                        id: rbs[render_buffer_id].texture_id,
                    },
                )
            } else if state.texture_1_id == rbs[render_buffer_id].texture_id
                || state.texture_2_id == rbs[render_buffer_id].texture_id {
                Some(BridgeError::TargetSampled { id: rbs[render_buffer_id].texture_id })
            } else if !geos.contains_key(geometry_id) {
                Some(BridgeError::UnknownId { kind: ResourceKind::Geometry, id: geometry_id })
            } else {
                None
            }
        },
    }
}

/// The first fault in a command list, if any.
pub open spec fn spec_first_fault(
    rbs: Map<u32, RenderBufferDesc>,
    tex: Map<u32, TextureEntry>,
    geos: Map<u32, GeometryEntry>,
    cmds: Seq<GpuCommand>,
) -> Option<BridgeError>
    decreases cmds.len(),
{
    if cmds.len() == 0 {
        None
    } else {
        match spec_first_fault(rbs, tex, geos, cmds.drop_last()) {
            Some(e) => Some(e),
            None => spec_cmd_fault(rbs, tex, geos, cmds.last()),
        }
    }
}

/// The operation a fault-free command translates to, and the pipeline
/// cache after it.  A clear touches the cache not at all; a draw serves
/// its pipeline key through the cache.
pub open spec fn spec_translate_step(
    rbs: Map<u32, RenderBufferDesc>,
    tex: Map<u32, TextureEntry>,
    geos: Map<u32, GeometryEntry>,
    cache: Seq<PipelineKey>,
    cmd: GpuCommand,
) -> (GpuOp, Seq<PipelineKey>)
    recommends
        spec_cmd_fault(rbs, tex, geos, cmd) is None,
{
    match cmd {
        GpuCommand::ClearRenderBuffer { render_buffer_id } => {
            (GpuOp::ClearTexture { texture_id: rbs[render_buffer_id].texture_id }, cache)
        },
        GpuCommand::DrawGeometry {
            render_buffer_id,
            geometry_id,
            indices_offset,
            indices_count,
            state,
        } => {
            let target_id = rbs[render_buffer_id].texture_id;
            let target = tex[target_id];
            let layout = geos[geometry_id].layout;
            let key = PipelineKey {
                layout,
                shader: state.shader_kind,
                blend: state.enable_blend,
                format: target.format,
            };
            let op = GpuOp::Draw(
                DrawOp {
                    target_texture_id: target_id,
                    target_format: target.format,
                    pipeline_slot: spec_slot_of(cache, key) as usize,
                    pipeline: key,
                    geometry_id,
                    layout,
                    texture_1: spec_texture_source(tex, state.texture_1_id),
                    texture_2: spec_texture_source(tex, state.texture_2_id),
                    uniforms: spec_uniforms_of(state),
                    indices_offset,
                    indices_count,
                },
            );
            (op, spec_cache_after(cache, key))
        },
    }
}

/// The operation buffer a fault-free command list translates to, one
/// operation per command in command order, and the pipeline cache after
/// the whole list.
pub open spec fn spec_translate_ops(
    rbs: Map<u32, RenderBufferDesc>,
    tex: Map<u32, TextureEntry>,
    geos: Map<u32, GeometryEntry>,
    cache: Seq<PipelineKey>,
    cmds: Seq<GpuCommand>,
) -> (Seq<GpuOp>, Seq<PipelineKey>)
    decreases cmds.len(),
{
    if cmds.len() == 0 {
        (Seq::empty(), cache)
    } else {
        let (ops, cache1) = spec_translate_ops(rbs, tex, geos, cache, cmds.drop_last());
        let (op, cache2) = spec_translate_step(rbs, tex, geos, cache1, cmds.last());
        (ops.push(op), cache2)
    }
}

/// A list with no fault has no faulting command.
pub proof fn lemma_fault_free(
    rbs: Map<u32, RenderBufferDesc>,
    tex: Map<u32, TextureEntry>,
    geos: Map<u32, GeometryEntry>,
    cmds: Seq<GpuCommand>,
)
    requires
        spec_first_fault(rbs, tex, geos, cmds) is None,
    ensures
        forall|j: int|
            0 <= j < cmds.len() ==> spec_cmd_fault(rbs, tex, geos, #[trigger] cmds[j]) is None,
    decreases cmds.len(),
{
    if cmds.len() > 0 {
        lemma_fault_free(rbs, tex, geos, cmds.drop_last());
        assert forall|j: int|
            0 <= j < cmds.len() implies spec_cmd_fault(rbs, tex, geos, #[trigger] cmds[j]) is None by {
            if j < cmds.len() - 1 {
                assert(cmds.drop_last()[j] == cmds[j]);
            } else {
                assert(cmds[j] == cmds.last());
            }
        }
    }
}

/// A fault-free prefix followed by a faulting command makes that command's
/// fault the list's first fault.
pub proof fn lemma_first_fault_at(
    rbs: Map<u32, RenderBufferDesc>,
    tex: Map<u32, TextureEntry>,
    geos: Map<u32, GeometryEntry>,
    cmds: Seq<GpuCommand>,
    j: int,
)
    requires
        0 <= j < cmds.len(),
        spec_first_fault(rbs, tex, geos, cmds.take(j)) is None,
        spec_cmd_fault(rbs, tex, geos, cmds[j]) is Some,
    ensures
        spec_first_fault(rbs, tex, geos, cmds) == spec_cmd_fault(rbs, tex, geos, cmds[j]),
    decreases cmds.len(),
{
    if j == cmds.len() - 1 {
        assert(cmds.take(j) =~= cmds.drop_last());
    } else {
        assert(cmds.drop_last().take(j) =~= cmds.take(j));
        lemma_first_fault_at(rbs, tex, geos, cmds.drop_last(), j);
        assert(cmds.drop_last()[j] == cmds[j]);
    }
}

/// The GPU driver bridge.  It owns all GPU-side records keyed by
/// engine-assigned handles, keeps them synchronized with the engine's
/// create/update/destroy notifications, and translates each submitted
/// command list into one operation buffer appended to the pending
/// submission pool.
pub struct CoreDriver {
    ids: IdAllocator,
    textures: ResourceTable<TextureEntry>,
    render_buffers: ResourceTable<RenderBufferDesc>,
    geometries: ResourceTable<GeometryEntry>,
    pipelines: PipelineCache,
    pending: Vec<Vec<GpuOp>>,
}

/// What one `next_texture_id` call promises: the returned handle is the
/// texture counter before the call, the counter advances by one (pinning
/// at its maximum instead of wrapping), and nothing else moves.
pub open spec fn next_texture_id_post(pre: CoreDriver, post: CoreDriver, r: u32) -> bool {
    &&& r == pre.texture_counter()
    &&& post.texture_counter() == if pre.texture_counter() < u32::MAX {
        (pre.texture_counter() + 1) as u32
    } else {
        u32::MAX
    }
    &&& post.geometry_counter() == pre.geometry_counter()
    &&& post.render_buffer_counter() == pre.render_buffer_counter()
    &&& post.free_list() == pre.free_list()
    &&& CoreDriver::same_but_ids(&pre, &post)
}

/// What one `next_geometry_id` call promises, with the same counting rule
/// as `next_texture_id_post`.
pub open spec fn next_geometry_id_post(pre: CoreDriver, post: CoreDriver, r: u32) -> bool {
    &&& r == pre.geometry_counter()
    &&& post.geometry_counter() == if pre.geometry_counter() < u32::MAX {
        (pre.geometry_counter() + 1) as u32
    } else {
        u32::MAX
    }
    &&& post.texture_counter() == pre.texture_counter()
    &&& post.render_buffer_counter() == pre.render_buffer_counter()
    &&& post.free_list() == pre.free_list()
    &&& CoreDriver::same_but_ids(&pre, &post)
}

/// What one `next_render_buffer_id` call promises: while any destroyed
/// handle waits on the free list, the first one is reissued and the fresh
/// counter is untouched; only an empty free list draws a fresh counter
/// value.
pub open spec fn next_render_buffer_id_post(pre: CoreDriver, post: CoreDriver, r: u32) -> bool {
    &&& post.texture_counter() == pre.texture_counter()
    &&& post.geometry_counter() == pre.geometry_counter()
    &&& pre.free_list().len() > 0 ==> {
        &&& r == pre.free_list()[0]
        &&& pre.free_list().contains(r)
        &&& post.free_list() == pre.free_list().update(0, pre.free_list().last()).drop_last()
        &&& post.render_buffer_counter() == pre.render_buffer_counter()
    }
    &&& pre.free_list().len() == 0 ==> {
        &&& r == pre.render_buffer_counter()
        &&& post.free_list() == pre.free_list()
        &&& post.render_buffer_counter() == if pre.render_buffer_counter() < u32::MAX {
            (pre.render_buffer_counter() + 1) as u32
        } else {
            u32::MAX
        }
    }
    &&& CoreDriver::same_but_ids(&pre, &post)
}

/// What one `create_texture` call promises: an error — with the driver
/// unchanged — exactly on a content-bearing bitmap whose bytes are
/// malformed or a handle that is still live; otherwise the texture table
/// gains the bitmap's entry, nothing else moves, and the returned
/// creation order matches the bitmap.
pub open spec fn create_texture_post(
    pre: CoreDriver,
    post: CoreDriver,
    id: u32,
    bitmap: BitmapData,
    r: Result<TextureInit, BridgeError>,
) -> bool {
    &&& (r is Err <==> ((!bitmap.is_empty && !bitmap.wf()) || pre.textures().contains_key(id)))
    &&& (!bitmap.is_empty && !bitmap.wf() ==> r == Err::<TextureInit, BridgeError>(
        BridgeError::MalformedBitmap { id },
    ))
    &&& ((bitmap.is_empty || bitmap.wf()) && pre.textures().contains_key(id) ==> r == Err::<
        TextureInit,
        BridgeError,
    >(BridgeError::DuplicateId { kind: ResourceKind::Texture, id }))
    &&& (r is Err ==> post == pre)
    &&& (r is Ok ==> {
        &&& texture_init_matches(&bitmap, &r->Ok_0)
        &&& post.textures() == pre.textures().insert(id, spec_texture_entry_of(&bitmap))
        &&& post.render_buffers() == pre.render_buffers()
        &&& post.geometries() == pre.geometries()
        &&& post.pipeline_keys() == pre.pipeline_keys()
        &&& post.pending() == pre.pending()
        &&& CoreDriver::same_ids(&pre, &post)
    })
}

/// What one `update_texture` call promises: the driver never changes (the
/// texture keeps its identity, so render buffers referencing it keep
/// working); an error exactly on a malformed bitmap, a dead handle, or an
/// extent differing from creation; otherwise the returned upload carries
/// the format-converted bytes.
pub open spec fn update_texture_post(
    pre: CoreDriver,
    post: CoreDriver,
    id: u32,
    bitmap: BitmapData,
    r: Result<TextureUpload, BridgeError>,
) -> bool {
    &&& post == pre
    &&& (r is Err <==> (!bitmap.wf() || !pre.textures().contains_key(id)
        || pre.textures()[id].width != bitmap.width || pre.textures()[id].height
        != bitmap.height))
    &&& (!bitmap.wf() ==> r == Err::<TextureUpload, BridgeError>(
        BridgeError::MalformedBitmap { id },
    ))
    &&& (bitmap.wf() && !pre.textures().contains_key(id) ==> r == Err::<
        TextureUpload,
        BridgeError,
    >(BridgeError::UnknownId { kind: ResourceKind::Texture, id }))
    &&& (bitmap.wf() && pre.textures().contains_key(id) && (pre.textures()[id].width
        != bitmap.width || pre.textures()[id].height != bitmap.height) ==> r == Err::<
        TextureUpload,
        BridgeError,
    >(BridgeError::SizeMismatch { id }))
    &&& (r is Ok ==> upload_matches(&bitmap, &r->Ok_0))
}

/// What one `destroy_texture` call promises: the handle is gone from the
/// texture table and nothing else moves.
pub open spec fn destroy_texture_post(pre: CoreDriver, post: CoreDriver, id: u32) -> bool {
    &&& post.textures() == pre.textures().remove(id)
    &&& post.render_buffers() == pre.render_buffers()
    &&& post.geometries() == pre.geometries()
    &&& post.pipeline_keys() == pre.pipeline_keys()
    &&& post.pending() == pre.pending()
    &&& CoreDriver::same_ids(&pre, &post)
}

/// What one `create_render_buffer` call promises: an error — with the
/// driver unchanged — exactly on a handle that is still live; otherwise
/// the render-buffer table gains the descriptor and nothing else moves.
pub open spec fn create_render_buffer_post(
    pre: CoreDriver,
    post: CoreDriver,
    id: u32,
    desc: RenderBufferDesc,
    r: Result<(), BridgeError>,
) -> bool {
    &&& (r is Err <==> pre.render_buffers().contains_key(id))
    &&& (r is Err ==> r == Err::<(), BridgeError>(
        BridgeError::DuplicateId { kind: ResourceKind::RenderBuffer, id },
    ) && post == pre)
    &&& (r is Ok ==> {
        &&& post.render_buffers() == pre.render_buffers().insert(id, desc)
        &&& post.textures() == pre.textures()
        &&& post.geometries() == pre.geometries()
        &&& post.pipeline_keys() == pre.pipeline_keys()
        &&& post.pending() == pre.pending()
        &&& CoreDriver::same_ids(&pre, &post)
    })
}

/// What one `destroy_render_buffer` call promises: a live handle leaves
/// the table and joins the free list; a dead handle changes nothing.
pub open spec fn destroy_render_buffer_post(pre: CoreDriver, post: CoreDriver, id: u32) -> bool {
    &&& pre.render_buffers().contains_key(id) ==> {
        &&& post.render_buffers() == pre.render_buffers().remove(id)
        &&& post.free_list() == pre.free_list().push(id)
    }
    &&& (!pre.render_buffers().contains_key(id) ==> post == pre)
    &&& post.textures() == pre.textures()
    &&& post.geometries() == pre.geometries()
    &&& post.pipeline_keys() == pre.pipeline_keys()
    &&& post.pending() == pre.pending()
    &&& post.texture_counter() == pre.texture_counter()
    &&& post.geometry_counter() == pre.geometry_counter()
    &&& post.render_buffer_counter() == pre.render_buffer_counter()
}

/// What one `create_geometry` call promises: an error — with the driver
/// unchanged — exactly on a handle that is still live; otherwise the
/// geometry table gains the entry built from the given layout and bytes.
pub open spec fn create_geometry_post(
    pre: CoreDriver,
    post: CoreDriver,
    id: u32,
    layout: VertexLayout,
    vertices: Vec<u8>,
    indices: Vec<u8>,
    r: Result<(), BridgeError>,
) -> bool {
    &&& (r is Err <==> pre.geometries().contains_key(id))
    &&& (r is Err ==> r == Err::<(), BridgeError>(
        BridgeError::DuplicateId { kind: ResourceKind::Geometry, id },
    ) && post == pre)
    &&& (r is Ok ==> {
        &&& post.geometries() == pre.geometries().insert(
            id,
            GeometryEntry { layout, vertices, indices },
        )
        &&& post.textures() == pre.textures()
        &&& post.render_buffers() == pre.render_buffers()
        &&& post.pipeline_keys() == pre.pipeline_keys()
        &&& post.pending() == pre.pending()
        &&& CoreDriver::same_ids(&pre, &post)
    })
}

/// What one `update_geometry` call promises: an error — with the driver
/// unchanged — exactly on a dead handle; otherwise the entry is replaced
/// wholesale under the same handle.
pub open spec fn update_geometry_post(
    pre: CoreDriver,
    post: CoreDriver,
    id: u32,
    layout: VertexLayout,
    vertices: Vec<u8>,
    indices: Vec<u8>,
    r: Result<(), BridgeError>,
) -> bool {
    &&& (r is Err <==> !pre.geometries().contains_key(id))
    &&& (r is Err ==> r == Err::<(), BridgeError>(
        BridgeError::UnknownId { kind: ResourceKind::Geometry, id },
    ) && post == pre)
    &&& (r is Ok ==> {
        &&& post.geometries() == pre.geometries().insert(
            id,
            GeometryEntry { layout, vertices, indices },
        )
        &&& post.textures() == pre.textures()
        &&& post.render_buffers() == pre.render_buffers()
        &&& post.pipeline_keys() == pre.pipeline_keys()
        &&& post.pending() == pre.pending()
        &&& CoreDriver::same_ids(&pre, &post)
    })
}

/// What one `destroy_geometry` call promises: the handle is gone from the
/// geometry table and nothing else moves.
pub open spec fn destroy_geometry_post(pre: CoreDriver, post: CoreDriver, id: u32) -> bool {
    &&& post.geometries() == pre.geometries().remove(id)
    &&& post.textures() == pre.textures()
    &&& post.render_buffers() == pre.render_buffers()
    &&& post.pipeline_keys() == pre.pipeline_keys()
    &&& post.pending() == pre.pending()
    &&& CoreDriver::same_ids(&pre, &post)
}

/// What one `update_command_list` call promises: on the first fault in
/// the list (unknown render buffer, gone backing texture, a draw sampling
/// its own target, unknown geometry) that error comes back and the driver
/// is unchanged; on a fault-free list the translation — one operation per
/// command, in order — is appended to the pending pool, the pipeline
/// cache grows by exactly the new keys, and the tables and identifiers
/// stay put.
pub open spec fn update_command_list_post(
    pre: CoreDriver,
    post: CoreDriver,
    cmds: Seq<GpuCommand>,
    r: Result<(), BridgeError>,
) -> bool {
    match spec_first_fault(pre.render_buffers(), pre.textures(), pre.geometries(), cmds) {
        Some(e) => r == Err::<(), BridgeError>(e) && post == pre,
        None => {
            &&& r is Ok
            &&& post.pending() == pre.pending().push(
                spec_translate_ops(
                    pre.render_buffers(),
                    pre.textures(),
                    pre.geometries(),
                    pre.pipeline_keys(),
                    cmds,
                ).0,
            )
            &&& post.pipeline_keys() == spec_translate_ops(
                pre.render_buffers(),
                pre.textures(),
                pre.geometries(),
                pre.pipeline_keys(),
                cmds,
            ).1
            &&& post.textures() == pre.textures()
            &&& post.render_buffers() == pre.render_buffers()
            &&& post.geometries() == pre.geometries()
            &&& CoreDriver::same_ids(&pre, &post)
        },
    }
}

impl CoreDriver {
    /// The texture table.
    pub closed spec fn textures(&self) -> Map<u32, TextureEntry> {
        self.textures@
    }

    /// The render-buffer table.
    pub closed spec fn render_buffers(&self) -> Map<u32, RenderBufferDesc> {
        self.render_buffers@
    }

    /// The geometry table.
    pub closed spec fn geometries(&self) -> Map<u32, GeometryEntry> {
        self.geometries@
    }

    /// The pipeline cache's keys, by slot.
    pub closed spec fn pipeline_keys(&self) -> Seq<PipelineKey> {
        self.pipelines@
    }

    /// The pending submission pool: finished operation buffers in
    /// submission order, oldest first.
    pub closed spec fn pending(&self) -> Seq<Seq<GpuOp>> {
        self.pending@.map_values(|v: Vec<GpuOp>| v@)
    }

    /// The texture handle the next `next_texture_id` call returns.
    pub closed spec fn texture_counter(&self) -> u32 {
        self.ids.texture_counter()
    }

    /// The geometry handle the next `next_geometry_id` call returns.
    pub closed spec fn geometry_counter(&self) -> u32 {
        self.ids.geometry_counter()
    }

    /// The render-buffer handle `next_render_buffer_id` returns once the
    /// free list is empty.
    pub closed spec fn render_buffer_counter(&self) -> u32 {
        self.ids.render_buffer_counter()
    }

    /// The destroyed render-buffer handles awaiting reissue.
    pub closed spec fn free_list(&self) -> Seq<u32> {
        self.ids.free_list()
    }

    /// Whether everything but the identifier state is unchanged between
    /// two driver states.
    pub open spec fn same_but_ids(pre: &CoreDriver, post: &CoreDriver) -> bool {
        &&& post.textures() == pre.textures()
        &&& post.render_buffers() == pre.render_buffers()
        &&& post.geometries() == pre.geometries()
        &&& post.pipeline_keys() == pre.pipeline_keys()
        &&& post.pending() == pre.pending()
    }

    /// Whether the identifier state is unchanged between two driver
    /// states.
    pub open spec fn same_ids(pre: &CoreDriver, post: &CoreDriver) -> bool {
        &&& post.texture_counter() == pre.texture_counter()
        &&& post.geometry_counter() == pre.geometry_counter()
        &&& post.render_buffer_counter() == pre.render_buffer_counter()
        &&& post.free_list() == pre.free_list()
    }

    /// A fresh driver: empty tables, an empty pipeline cache, an empty
    /// pending pool, and counters at their starting handles.
    pub fn new() -> (r: CoreDriver)
        ensures
            r.textures() == Map::<u32, TextureEntry>::empty(),
            r.render_buffers() == Map::<u32, RenderBufferDesc>::empty(),
            r.geometries() == Map::<u32, GeometryEntry>::empty(),
            r.pipeline_keys() == Seq::<PipelineKey>::empty(),
            r.pending() == Seq::<Seq<GpuOp>>::empty(),
            r.texture_counter() == 1u32,
            r.geometry_counter() == 1u32,
            r.render_buffer_counter() == 0u32,
            r.free_list() == Seq::<u32>::empty(),
    {
        let r = CoreDriver {
            ids: IdAllocator::new(),
            textures: ResourceTable::new(),
            render_buffers: ResourceTable::new(),
            geometries: ResourceTable::new(),
            pipelines: PipelineCache::new(),
            pending: Vec::new(),
        };
        proof {
            assert(r.pending() =~= Seq::<Seq<GpuOp>>::empty());
        }
        r
    }

    /// Issues the next texture handle; handles count up from 1 and are
    /// never reissued (the counter pins at its maximum rather than wrap).
    pub fn next_texture_id(&mut self) -> (r: u32)
        ensures
            next_texture_id_post(*old(self), *final(self), r),
    {
        self.ids.next_texture_id()
    }

    /// Issues the next geometry handle, with the same counting rule as
    /// `next_texture_id`.
    pub fn next_geometry_id(&mut self) -> (r: u32)
        ensures
            next_geometry_id_post(*old(self), *final(self), r),
    {
        self.ids.next_geometry_id()
    }

    /// Issues the next render-buffer handle: one recycled from the free
    /// list while any destroyed handle waits there, a fresh counter value
    /// only once the free list is empty.
    pub fn next_render_buffer_id(&mut self) -> (r: u32)
        ensures
            next_render_buffer_id_post(*old(self), *final(self), r),
    {
        self.ids.next_render_buffer_id()
    }

    /// Records a texture the engine created and says what the backend must
    /// allocate (and, for a content-bearing bitmap, upload).  Fails exactly
    /// on a content-bearing bitmap whose bytes are malformed, or on a
    /// handle that is still live; on failure the driver is unchanged.  An
    /// empty bitmap only reserves a render target, so its pixel buffer is
    /// ignored.
    pub fn create_texture(&mut self, id: u32, bitmap: &BitmapData) -> (r: Result<
        TextureInit,
        BridgeError,
    >)
        ensures
            create_texture_post(*old(self), *final(self), id, *bitmap, r),
    {
        if !bitmap.is_empty && !bitmap.check_wf() {
            return Err(BridgeError::MalformedBitmap { id });
        }
        if self.textures.contains(id) {
            return Err(BridgeError::DuplicateId { kind: ResourceKind::Texture, id });
        }
        let entry = TextureEntry {
            width: bitmap.width,
            height: bitmap.height,
            format: crate::gpu::state::texture_format_of(bitmap.format),
            render_attachment: bitmap.is_empty,
        };
        self.textures.insert(id, entry);
        let upload = if bitmap.is_empty {
            None
        } else {
            Some(upload_of(bitmap))
        };
        Ok(
            TextureInit {
                width: bitmap.width,
                height: bitmap.height,
                format: entry.format,
                render_attachment: bitmap.is_empty,
                upload,
            },
        )
    }

    /// Converts a texture update into the upload the backend performs.
    /// The driver's records do not change: the texture keeps its identity,
    /// so render buffers referencing it keep working.  Fails exactly on a
    /// malformed bitmap, a handle with no live texture, or an extent that
    /// differs from creation.
    pub fn update_texture(&mut self, id: u32, bitmap: &BitmapData) -> (r: Result<
        TextureUpload,
        BridgeError,
    >)
        ensures
            update_texture_post(*old(self), *final(self), id, *bitmap, r),
    {
        if !bitmap.check_wf() {
            return Err(BridgeError::MalformedBitmap { id });
        }
        let entry = match self.textures.get(id) {
            Some(e) => *e,
            None => {
                return Err(BridgeError::UnknownId { kind: ResourceKind::Texture, id });
            },
        };
        if entry.width != bitmap.width || entry.height != bitmap.height {
            return Err(BridgeError::SizeMismatch { id });
        }
        Ok(upload_of(bitmap))
    }

    /// Forgets a texture.  The handle is gone from the table afterwards;
    /// destroying a handle that is not live changes nothing.
    pub fn destroy_texture(&mut self, id: u32)
        ensures
            destroy_texture_post(*old(self), *final(self), id),
    {
        let _ = self.textures.remove(id);
    }

    /// Records a render buffer the engine created.  Fails exactly on a
    /// handle that is still live (the engine never reuses a live handle);
    /// on failure the driver is unchanged.  Whether `desc.texture_id`
    /// names a live texture is not validated here: the engine sequences
    /// texture destruction after the render buffers using it, and a stale
    /// reference surfaces as a fault when a command targets this buffer.
    pub fn create_render_buffer(&mut self, id: u32, desc: RenderBufferDesc) -> (r: Result<
        (),
        BridgeError,
    >)
        ensures
            create_render_buffer_post(*old(self), *final(self), id, desc, r),
    {
        if self.render_buffers.contains(id) {
            return Err(BridgeError::DuplicateId { kind: ResourceKind::RenderBuffer, id });
        }
        self.render_buffers.insert(id, desc);
        Ok(())
    }

    /// Forgets a render buffer and returns its handle to the allocator's
    /// free list for reissue.  Destroying a handle that is not live
    /// changes nothing (in particular it frees nothing).
    pub fn destroy_render_buffer(&mut self, id: u32)
        ensures
            destroy_render_buffer_post(*old(self), *final(self), id),
    {
        if self.render_buffers.contains(id) {
            let _ = self.render_buffers.remove(id);
            self.ids.free_render_buffer_id(id);
        }
    }

    /// Records a geometry the engine created; the backend creates the
    /// vertex and index buffers from the same bytes.  Fails exactly on a
    /// handle that is still live; on failure the driver is unchanged.
    pub fn create_geometry(
        &mut self,
        id: u32,
        layout: VertexLayout,
        vertices: Vec<u8>,
        indices: Vec<u8>,
    ) -> (r: Result<(), BridgeError>)
        ensures
            create_geometry_post(*old(self), *final(self), id, layout, vertices, indices, r),
    {
        if self.geometries.contains(id) {
            return Err(BridgeError::DuplicateId { kind: ResourceKind::Geometry, id });
        }
        self.geometries.insert(id, GeometryEntry { layout, vertices, indices });
        Ok(())
    }

    /// Replaces a geometry's contents wholesale: both buffers are
    /// reallocated by the backend from the new bytes, under the same
    /// handle.  Fails exactly on a handle with no live geometry; on
    /// failure the driver is unchanged.
    pub fn update_geometry(
        &mut self,
        id: u32,
        layout: VertexLayout,
        vertices: Vec<u8>,
        indices: Vec<u8>,
    ) -> (r: Result<(), BridgeError>)
        ensures
            update_geometry_post(*old(self), *final(self), id, layout, vertices, indices, r),
    {
        if !self.geometries.contains(id) {
            return Err(BridgeError::UnknownId { kind: ResourceKind::Geometry, id });
        }
        self.geometries.insert(id, GeometryEntry { layout, vertices, indices });
        Ok(())
    }

    /// Forgets a geometry.  Destroying a handle that is not live changes
    /// nothing.
    pub fn destroy_geometry(&mut self, id: u32)
        ensures
            destroy_geometry_post(*old(self), *final(self), id),
    {
        let _ = self.geometries.remove(id);
    }

    /// The record a texture handle names, if it is live.
    pub fn get_texture(&self, id: u32) -> (r: Option<&TextureEntry>)
        ensures
            match r {
                Some(e) => self.textures().contains_key(id) && *e == self.textures()[id],
                None => !self.textures().contains_key(id),
            },
    {
        self.textures.get(id)
    }

    /// The descriptor a render-buffer handle names, if it is live.
    pub fn get_render_buffer(&self, id: u32) -> (r: Option<&RenderBufferDesc>)
        ensures
            match r {
                Some(d) => self.render_buffers().contains_key(id) && *d
                    == self.render_buffers()[id],
                None => !self.render_buffers().contains_key(id),
            },
    {
        self.render_buffers.get(id)
    }

    /// The record a geometry handle names, if it is live.
    pub fn get_geometry(&self, id: u32) -> (r: Option<&GeometryEntry>)
        ensures
            match r {
                Some(g) => self.geometries().contains_key(id) && *g == self.geometries()[id],
                None => !self.geometries().contains_key(id),
            },
    {
        self.geometries.get(id)
    }

    /// How many distinct pipelines the backend has been asked to build.
    pub fn pipeline_count(&self) -> (r: usize)
        ensures
            r == self.pipeline_keys().len(),
    {
        self.pipelines.len()
    }

    /// The pipeline key a cache slot holds.
    pub fn pipeline_key_at(&self, slot: usize) -> (r: PipelineKey)
        requires
            slot < self.pipeline_keys().len(),
        ensures
            r == self.pipeline_keys()[slot as int],
    {
        self.pipelines.key_at(slot)
    }

    /// Decides whether one command faults against the current tables.
    fn command_fault(&self, cmd: &GpuCommand) -> (r: Option<BridgeError>)
        ensures
            r == spec_cmd_fault(self.render_buffers(), self.textures(), self.geometries(), *cmd),
    {
        match cmd {
            GpuCommand::ClearRenderBuffer { render_buffer_id } => {
                match self.render_buffers.get(*render_buffer_id) {
                    None => Some(
                        BridgeError::UnknownId {
                            kind: ResourceKind::RenderBuffer,
                            id: *render_buffer_id,
                        },
                    ),
                    Some(rb) => {
                        if !self.textures.contains(rb.texture_id) {
                            Some(
                                BridgeError::UnknownId {
                                    kind: ResourceKind::Texture,
                                    id: rb.texture_id,
                                },
                            )
                        } else {
                            None
                        }
                    },
                }
            },
            GpuCommand::DrawGeometry { render_buffer_id, geometry_id, state, .. } => {
                match self.render_buffers.get(*render_buffer_id) {
                    None => Some(
                        BridgeError::UnknownId {
                            kind: ResourceKind::RenderBuffer,
                            id: *render_buffer_id,
                        },
                    ),
                    Some(rb) => {
                        if !self.textures.contains(rb.texture_id) {
                            Some(
                                BridgeError::UnknownId {
                                    kind: ResourceKind::Texture,
                                    id: rb.texture_id,
                                },
                            )
                        } else if state.texture_1_id == rb.texture_id || state.texture_2_id
                            == rb.texture_id {
                            Some(BridgeError::TargetSampled { id: rb.texture_id })
                        } else if !self.geometries.contains(*geometry_id) {
                            Some(
                                BridgeError::UnknownId {
                                    kind: ResourceKind::Geometry,
                                    id: *geometry_id,
                                },
                            )
                        } else {
                            None
                        }
                    },
                }
            },
        }
    }

    /// Translates one fault-free command, serving the draw's pipeline key
    /// through the pipeline cache.
    fn translate_step(&mut self, cmd: &GpuCommand) -> (op: GpuOp)
        requires
            spec_cmd_fault(
                old(self).render_buffers(),
                old(self).textures(),
                old(self).geometries(),
                *cmd,
            ) is None,
        ensures
            op == spec_translate_step(
                old(self).render_buffers(),
                old(self).textures(),
                old(self).geometries(),
                old(self).pipeline_keys(),
                *cmd,
            ).0,
            final(self).pipeline_keys() == spec_translate_step(
                old(self).render_buffers(),
                old(self).textures(),
                old(self).geometries(),
                old(self).pipeline_keys(),
                *cmd,
            ).1,
            final(self).textures() == old(self).textures(),
            final(self).render_buffers() == old(self).render_buffers(),
            final(self).geometries() == old(self).geometries(),
            final(self).pending() == old(self).pending(),
            CoreDriver::same_ids(old(self), final(self)),
    {
        match cmd {
            GpuCommand::ClearRenderBuffer { render_buffer_id } => {
                let rb = *self.render_buffers.get(*render_buffer_id).unwrap();
                GpuOp::ClearTexture { texture_id: rb.texture_id }
            },
            GpuCommand::DrawGeometry {
                render_buffer_id,
                geometry_id,
                indices_offset,
                indices_count,
                state,
            } => {
                let rb = *self.render_buffers.get(*render_buffer_id).unwrap();
                let target = *self.textures.get(rb.texture_id).unwrap();
                let layout = self.geometries.get(*geometry_id).unwrap().layout;
                let key = PipelineKey {
                    layout,
                    shader: state.shader_kind,
                    blend: state.enable_blend,
                    format: target.format,
                };
                let slot = self.pipelines.lookup_or_insert(key);
                let texture_1 = if self.textures.contains(state.texture_1_id) {
                    TextureSource::Texture(state.texture_1_id)
                } else {
                    TextureSource::Placeholder
                };
                let texture_2 = if self.textures.contains(state.texture_2_id) {
                    TextureSource::Texture(state.texture_2_id)
                } else {
                    TextureSource::Placeholder
                };
                GpuOp::Draw(
                    DrawOp {
                        target_texture_id: rb.texture_id,
                        target_format: target.format,
                        pipeline_slot: slot,
                        pipeline: key,
                        geometry_id: *geometry_id,
                        layout,
                        texture_1,
                        texture_2,
                        uniforms: uniforms_of(state),
                        indices_offset: *indices_offset,
                        indices_count: *indices_count,
                    },
                )
            },
        }
    }

    /// Translates a submitted command list, strictly in order and one
    /// operation per command, and appends the finished buffer to the
    /// pending pool.  Fails — with the whole driver unchanged — exactly
    /// when some command names an unknown render buffer, a render buffer
    /// whose backing texture is gone, or an unknown geometry, or a draw
    /// would sample its own target; the error is the first such fault in
    /// list order.  A draw whose *sampled* texture handles are dead does
    /// not fail: the placeholder is bound instead.
    pub fn update_command_list(&mut self, commands: &Vec<GpuCommand>) -> (r: Result<
        (),
        BridgeError,
    >)
        ensures
            update_command_list_post(*old(self), *final(self), commands@, r),
    {
        let n = commands.len();
        let mut i: usize = 0;
        while i < n
            invariant
                *self == *old(self),
                n == commands@.len(),
                0 <= i <= n,
                spec_first_fault(
                    self.render_buffers(),
                    self.textures(),
                    self.geometries(),
                    commands@.take(i as int),
                ) is None,
            decreases n - i,
        {
            match self.command_fault(&commands[i]) {
                Some(e) => {
                    proof {
                        lemma_first_fault_at(
                            self.render_buffers(),
                            self.textures(),
                            self.geometries(),
                            commands@,
                            i as int,
                        );
                    }
                    return Err(e);
                },
                None => {
                    proof {
                        assert(commands@.take(i + 1).drop_last() =~= commands@.take(i as int));
                        assert(commands@.take(i + 1).last() == commands@[i as int]);
                    }
                },
            }
            i = i + 1;
        }
        proof {
            assert(commands@.take(n as int) =~= commands@);
        }
        let ghost rbs0 = self.render_buffers();
        let ghost tex0 = self.textures();
        let ghost geos0 = self.geometries();
        let ghost cache0 = self.pipeline_keys();
        let mut ops: Vec<GpuOp> = Vec::new();
        let mut i: usize = 0;
        while i < n
            invariant
                n == commands@.len(),
                0 <= i <= n,
                self.render_buffers() == rbs0,
                self.textures() == tex0,
                self.geometries() == geos0,
                self.pending() == old(self).pending(),
                rbs0 == old(self).render_buffers(),
                tex0 == old(self).textures(),
                geos0 == old(self).geometries(),
                cache0 == old(self).pipeline_keys(),
                CoreDriver::same_ids(old(self), self),
                spec_first_fault(rbs0, tex0, geos0, commands@) is None,
                ops@ == spec_translate_ops(rbs0, tex0, geos0, cache0, commands@.take(i as int)).0,
                self.pipeline_keys() == spec_translate_ops(
                    rbs0,
                    tex0,
                    geos0,
                    cache0,
                    commands@.take(i as int),
                ).1,
            decreases n - i,
        {
            proof {
                lemma_fault_free(rbs0, tex0, geos0, commands@);
                assert(spec_cmd_fault(rbs0, tex0, geos0, commands@[i as int]) is None);
            }
            let op = self.translate_step(&commands[i]);
            ops.push(op);
            proof {
                assert(commands@.take(i + 1).drop_last() =~= commands@.take(i as int));
                assert(commands@.take(i + 1).last() == commands@[i as int]);
            }
            i = i + 1;
        }
        proof {
            assert(commands@.take(n as int) =~= commands@);
        }
        self.pending.push(ops);
        proof {
            assert(self.pending() =~= old(self).pending().push(
                spec_translate_ops(rbs0, tex0, geos0, cache0, commands@).0,
            ));
        }
        Ok(())
    }

    /// Hands the pending operation buffers to the caller in submission
    /// order and empties the pool.  The embedder's presentation loop calls
    /// this once per frame and submits the buffers in the order returned,
    /// preserving first-in-first-out ordering between command lists.
    pub fn drain_pending(&mut self) -> (r: Vec<Vec<GpuOp>>)
        ensures
            r@.map_values(|v: Vec<GpuOp>| v@) == old(self).pending(),
            final(self).pending() == Seq::<Seq<GpuOp>>::empty(),
            CoreDriver::same_ids(old(self), final(self)),
            final(self).textures() == old(self).textures(),
            final(self).render_buffers() == old(self).render_buffers(),
            final(self).geometries() == old(self).geometries(),
            final(self).pipeline_keys() == old(self).pipeline_keys(),
    {
        let mut drained: Vec<Vec<GpuOp>> = Vec::new();
        core::mem::swap(&mut drained, &mut self.pending);
        proof {
            assert(self.pending() =~= Seq::<Seq<GpuOp>>::empty());
        }
        drained
    }
}

} // verus!
