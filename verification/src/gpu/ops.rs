//! The backend-neutral GPU operations the command translator emits.
//!
//! One submitted command list becomes one operation buffer; the driver
//! keeps finished buffers in a pending pool, first-in first-out, until the
//! embedder's presentation loop drains and submits them.

use vstd::prelude::*;

use crate::gpu::pipeline::PipelineKey;
use crate::gpu::state::{GpuState, TexFormat, VertexLayout};

verus! {

/// Which texture a draw samples from: a live table entry, or the shared
/// 1×1 placeholder (format `R8`, binding-only usage) substituted when the
/// referenced handle is not in the texture table.
#[derive(Clone, Copy, PartialEq, Eq, Structural, Debug)]
pub enum TextureSource {
    /// The texture the given live handle names.
    Texture(u32),
    /// The reusable 1×1 placeholder texture.
    Placeholder,
}

/// The per-draw uniform block, carried as raw 32-bit words.  The backend
/// packs it after applying the engine's projection function to the
/// transform together with the viewport extent.
#[derive(Clone, Copy, PartialEq, Eq, Debug)]
pub struct UniformBlock {
    /// Viewport width in pixels.
    pub viewport_width: u32,
    /// Viewport height in pixels.
    pub viewport_height: u32,
    /// Row-major 4×4 transform, raw words, not yet projected.
    pub transform: [u32; 16],
    /// Eight scalar uniforms, raw words.
    pub scalar: [u32; 8],
    /// Eight vector uniforms, raw words.
    pub vector: [[u32; 4]; 8],
    /// How many clip matrices are meaningful.
    pub clip_size: u32,
    /// Eight clip matrices, raw words.
    pub clip: [[u32; 16]; 8],
}

/// The uniform block a draw's state snapshot induces.
pub open spec fn spec_uniforms_of(state: GpuState) -> UniformBlock {
    UniformBlock {
        viewport_width: state.viewport_width,
        viewport_height: state.viewport_height,
        transform: state.transform,
        scalar: state.uniform_scalar,
        vector: state.uniform_vector,
        clip_size: state.clip_size,
        clip: state.clip,
    }
}

/// Builds the uniform block of a draw from its state snapshot.
pub fn uniforms_of(state: &GpuState) -> (r: UniformBlock)
    ensures
        r == spec_uniforms_of(*state),
{
    UniformBlock {
        viewport_width: state.viewport_width,
        viewport_height: state.viewport_height,
        transform: state.transform,
        scalar: state.uniform_scalar,
        vector: state.uniform_vector,
        clip_size: state.clip_size,
        clip: state.clip,
    }
}

/// Size of the packed per-draw uniform block in bytes: a state vector
/// (4 words), the projected transform (16), eight scalars (8), eight
/// vectors (32), the clip count with its padding (4), and eight clip
/// matrices (128) — 192 words.
pub const UNIFORM_BLOCK_BYTES: usize = 768;

/// The flattening of a sequence of 4-word rows.
pub open spec fn spec_flatten4(a: Seq<[u32; 4]>) -> Seq<u32>
    decreases a.len(),
{
    if a.len() == 0 {
        Seq::empty()
    } else {
        spec_flatten4(a.drop_last()) + a.last()@
    }
}

/// The flattening of a sequence of 16-word rows.
pub open spec fn spec_flatten16(a: Seq<[u32; 16]>) -> Seq<u32>
    decreases a.len(),
{
    if a.len() == 0 {
        Seq::empty()
    } else {
        spec_flatten16(a.drop_last()) + a.last()@
    }
}

/// The uniform block in its packed word order: the float-encoded state
/// vector, the projected transform, the scalars, the vectors, the clip
/// count padded to one row, and the clip matrices.
pub open spec fn spec_packed_uniforms(
    state_vec: Seq<u32>,
    transform: Seq<u32>,
    u: UniformBlock,
) -> Seq<u32> {
    state_vec + transform + u.scalar@ + spec_flatten4(u.vector@) + seq![
        u.clip_size,
        0u32,
        0u32,
        0u32,
    ] + spec_flatten16(u.clip@)
}

/// Packs a draw's uniform block into the 192-word layout the shaders
/// read, exactly in field order with three padding words after the clip
/// count.  The first two rows come from the backend: the float-encoded
/// state vector, and the transform after the engine's projection for the
/// viewport — the only two pieces that take floating-point work.
pub fn pack_uniform_words(state_vec: &[u32; 4], transform: &[u32; 16], u: &UniformBlock) -> (r:
    Vec<u32>)
    ensures
        r@ == spec_packed_uniforms(state_vec@, transform@, *u),
        r@.len() * 4 == UNIFORM_BLOCK_BYTES,
{
    let mut out: Vec<u32> = Vec::new();
    let mut i: usize = 0;
    while i < 4
        invariant
            0 <= i <= 4,
            out@ == state_vec@.take(i as int),
        decreases 4 - i,
    {
        out.push(state_vec[i]);
        proof {
            assert(out@ =~= state_vec@.take(i + 1));
        }
        i = i + 1;
    }
    let ghost head1 = state_vec@;
    proof {
        assert(out@ =~= head1);
    }
    i = 0;
    while i < 16
        invariant
            0 <= i <= 16,
            out@ == head1 + transform@.take(i as int),
        decreases 16 - i,
    {
        out.push(transform[i]);
        proof {
            assert(out@ =~= head1 + transform@.take(i + 1));
        }
        i = i + 1;
    }
    let ghost head2 = head1 + transform@;
    proof {
        assert(out@ =~= head2);
    }
    i = 0;
    while i < 8
        invariant
            0 <= i <= 8,
            out@ == head2 + u.scalar@.take(i as int),
        decreases 8 - i,
    {
        out.push(u.scalar[i]);
        proof {
            assert(out@ =~= head2 + u.scalar@.take(i + 1));
        }
        i = i + 1;
    }
    let ghost head3 = head2 + u.scalar@;
    proof {
        assert(out@ =~= head3);
    }
    i = 0;
    while i < 8
        invariant
            0 <= i <= 8,
            out@ == head3 + spec_flatten4(u.vector@.take(i as int)),
        decreases 8 - i,
    {
        let ghost before = out@;
        let row = u.vector[i];
        let mut j: usize = 0;
        while j < 4
            invariant
                0 <= j <= 4,
                row == u.vector@[i as int],
                out@ == before + row@.take(j as int),
            decreases 4 - j,
        {
            out.push(row[j]);
            proof {
                assert(out@ =~= before + row@.take(j + 1));
            }
            j = j + 1;
        }
        proof {
            assert(u.vector@.take(i + 1).drop_last() =~= u.vector@.take(i as int));
            assert(u.vector@.take(i + 1).last() == u.vector@[i as int]);
            assert(row@.take(4) =~= row@);
            assert(out@ =~= head3 + spec_flatten4(u.vector@.take(i + 1)));
        }
        i = i + 1;
    }
    let ghost head4 = head3 + spec_flatten4(u.vector@);
    proof {
        assert(u.vector@.take(8) =~= u.vector@);
        assert(out@ =~= head4);
    }
    out.push(u.clip_size);
    out.push(0);
    out.push(0);
    out.push(0);
    let ghost head5 = head4 + seq![u.clip_size, 0u32, 0u32, 0u32];
    proof {
        assert(out@ =~= head5);
    }
    i = 0;
    while i < 8
        invariant
            0 <= i <= 8,
            out@ == head5 + spec_flatten16(u.clip@.take(i as int)),
        decreases 8 - i,
    {
        let ghost before = out@;
        let row = u.clip[i];
        let mut j: usize = 0;
        while j < 16
            invariant
                0 <= j <= 16,
                row == u.clip@[i as int],
                out@ == before + row@.take(j as int),
            decreases 16 - j,
        {
            out.push(row[j]);
            proof {
                assert(out@ =~= before + row@.take(j + 1));
            }
            j = j + 1;
        }
        proof {
            assert(u.clip@.take(i + 1).drop_last() =~= u.clip@.take(i as int));
            assert(u.clip@.take(i + 1).last() == u.clip@[i as int]);
            assert(row@.take(16) =~= row@);
            assert(out@ =~= head5 + spec_flatten16(u.clip@.take(i + 1)));
        }
        i = i + 1;
    }
    proof {
        assert(u.clip@.take(8) =~= u.clip@);
        assert(out@ =~= spec_packed_uniforms(state_vec@, transform@, *u));
        lemma_flatten4_len(u.vector@);
        lemma_flatten16_len(u.clip@);
    }
    out
}

/// Flattening 4-word rows yields four words per row.
pub proof fn lemma_flatten4_len(a: Seq<[u32; 4]>)
    ensures
        spec_flatten4(a).len() == 4 * a.len(),
    decreases a.len(),
{
    if a.len() > 0 {
        lemma_flatten4_len(a.drop_last());
    }
}

/// Flattening 16-word rows yields sixteen words per row.
pub proof fn lemma_flatten16_len(a: Seq<[u32; 16]>)
    ensures
        spec_flatten16(a).len() == 16 * a.len(),
    decreases a.len(),
{
    if a.len() > 0 {
        lemma_flatten16_len(a.drop_last());
    }
}

/// One fully resolved draw: a render pass over the target texture with
/// load-preserving color, the pipeline slot to bind, the geometry buffers
/// to bind, the bound textures, the uniform block, and an indexed draw
/// over the command's index sub-range.  Both textures are sampled through
/// the bridge's one shared sampler (clamp-to-edge addressing with a
/// transparent-black border).
#[derive(Clone, Copy, PartialEq, Eq, Debug)]
pub struct DrawOp {
    /// Texture the target render buffer is backed by.
    pub target_texture_id: u32,
    /// Color format of that texture (the pipeline's target format).
    pub target_format: TexFormat,
    /// Slot of the pipeline in the pipeline cache.
    pub pipeline_slot: usize,
    /// The pipeline's key, for a backend building the slot on first use.
    pub pipeline: PipelineKey,
    /// Geometry whose vertex and index buffers are bound.
    pub geometry_id: u32,
    /// Vertex layout of that geometry.
    pub layout: VertexLayout,
    /// Primary sampled texture.
    pub texture_1: TextureSource,
    /// Secondary sampled texture.
    pub texture_2: TextureSource,
    /// The per-draw uniform block.
    pub uniforms: UniformBlock,
    /// First index of the drawn sub-range.
    pub indices_offset: u32,
    /// Number of indices drawn.
    pub indices_count: u32,
}

/// One encoded GPU operation.
#[derive(Clone, Copy, PartialEq, Eq, Debug)]
pub enum GpuOp {
    /// Full-resource clear of a texture: its contents become
    /// undefined/zeroed, as under a hardware clear-texture operation.
    ClearTexture {
        /// The texture to clear.
        texture_id: u32,
    },
    /// One resolved draw.
    Draw(DrawOp),
}

impl GpuOp {
    /// The texture whose contents this operation affects.
    pub open spec fn target(self) -> u32 {
        match self {
            GpuOp::ClearTexture { texture_id } => texture_id,
            GpuOp::Draw(d) => d.target_texture_id,
        }
    }

    /// Whether this operation erases its target's earlier contents.
    pub open spec fn is_clear(self) -> bool {
        self is ClearTexture
    }
}

/// The operations on `target` that still shape its contents after `ops`
/// ran: everything from the last clear of `target` onwards, in order.
/// Operations on other targets do not touch it, and a clear erases all
/// effects before it.
pub open spec fn spec_visible_ops(ops: Seq<GpuOp>, target: u32) -> Seq<GpuOp>
    decreases ops.len(),
{
    if ops.len() == 0 {
        Seq::empty()
    } else {
        let last = ops.last();
        if last.target() == target {
            if last.is_clear() {
                seq![last]
            } else {
                spec_visible_ops(ops.drop_last(), target).push(last)
            }
        } else {
            spec_visible_ops(ops.drop_last(), target)
        }
    }
}

} // verus!
