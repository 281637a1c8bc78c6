//! The plain-value display-list vocabulary the engine hands the bridge:
//! pixel and texture formats, vertex layouts, per-draw state snapshots,
//! render-buffer descriptors and commands.
//!
//! Scalars the engine supplies for the GPU (transforms, uniform scalars and
//! vectors, clip matrices) are carried as raw 32-bit words.  The bridge
//! never computes with them — it only decides where they go — so their
//! floating-point reading belongs to the backend that uploads them.

use vstd::prelude::*;

verus! {

/// Pixel format of a bitmap the engine describes.  The vocabulary is
/// closed: the engine produces single-channel 8-bit alpha bitmaps and
/// 8-bit-per-channel BGRA bitmaps with non-linear encoding.
#[derive(Clone, Copy, PartialEq, Eq, Structural, Debug)]
pub enum BitmapFormat {
    /// One byte per pixel, an alpha coverage value.
    A8,
    /// Four bytes per pixel, blue-green-red-alpha, sRGB encoded.
    Bgra8Srgb,
}

impl BitmapFormat {
    /// Bytes per pixel of this format.
    pub open spec fn spec_bytes_per_pixel(self) -> u32 {
        match self {
            BitmapFormat::A8 => 1u32,
            BitmapFormat::Bgra8Srgb => 4u32,
        }
    }

    /// Bytes per pixel of this format.
    #[verifier::when_used_as_spec(spec_bytes_per_pixel)]
    pub fn bytes_per_pixel(self) -> (r: u32)
        ensures
            r == self.spec_bytes_per_pixel(),
    {
        match self {
            BitmapFormat::A8 => 1,
            BitmapFormat::Bgra8Srgb => 4,
        }
    }
}

/// Storage format of a GPU texture the bridge owns.
///
/// Alpha bitmaps are stored four channels wide, because a GPU API may be
/// unable to sample a single-channel texture as if it were alpha; no
/// single-channel texture format exists here except the placeholder's.
#[derive(Clone, Copy, PartialEq, Eq, Structural, Debug)]
pub enum TexFormat {
    /// Four 8-bit channels, linear.
    Bgra8,
    /// Four 8-bit channels, sRGB encoded.
    Bgra8Srgb,
    /// One 8-bit channel; only the 1×1 placeholder texture uses it.
    R8,
}

/// The texture format backing a bitmap of the given pixel format.
pub open spec fn spec_texture_format_of(format: BitmapFormat) -> TexFormat {
    match format {
        BitmapFormat::A8 => TexFormat::Bgra8,
        BitmapFormat::Bgra8Srgb => TexFormat::Bgra8Srgb,
    }
}

/// The texture format backing a bitmap of the given pixel format: alpha
/// bitmaps widen to four-channel linear storage, BGRA bitmaps keep their
/// sRGB encoding.
#[verifier::when_used_as_spec(spec_texture_format_of)]
pub fn texture_format_of(format: BitmapFormat) -> (r: TexFormat)
    ensures
        r == spec_texture_format_of(format),
{
    match format {
        BitmapFormat::A8 => TexFormat::Bgra8,
        BitmapFormat::Bgra8Srgb => TexFormat::Bgra8Srgb,
    }
}

/// Vertex layout tag of a geometry.  The engine writes raw bytes against
/// these layouts, so offsets and strides are fixed bit-for-bit.
#[derive(Clone, Copy, PartialEq, Eq, Structural, Debug)]
pub enum VertexLayout {
    /// Position (2 floats), color (4 bytes), texcoord (2 floats).
    Simple,
    /// The simple attributes, one more texcoord pair, then seven float4
    /// "data" slots used for path and fill effects.
    Extended,
}

/// Component format of one vertex attribute.
#[derive(Clone, Copy, PartialEq, Eq, Structural, Debug)]
pub enum AttrFormat {
    /// Two 32-bit floats.
    F32x2,
    /// Four unsigned bytes.
    U8x4,
    /// Four 32-bit floats.
    F32x4,
}

/// One vertex attribute: its component format, byte offset inside the
/// vertex, and shader binding slot.
#[derive(Clone, Copy, PartialEq, Eq, Structural, Debug)]
pub struct VertexAttr {
    /// Component format.
    pub format: AttrFormat,
    /// Byte offset from the start of the vertex.
    pub offset: u32,
    /// Shader input location.
    pub location: u32,
}

/// Byte stride of one vertex under the given layout.
pub open spec fn spec_vertex_stride(layout: VertexLayout) -> u32 {
    match layout {
        VertexLayout::Simple => 20u32,
        VertexLayout::Extended => 140u32,
    }
}

/// Byte stride of one vertex under the given layout: 20 bytes for the
/// simple layout, 140 for the extended one.
#[verifier::when_used_as_spec(spec_vertex_stride)]
pub fn vertex_stride(layout: VertexLayout) -> (r: u32)
    ensures
        r == spec_vertex_stride(layout),
{
    match layout {
        VertexLayout::Simple => 20,
        VertexLayout::Extended => 140,
    }
}

/// The attribute table of the given layout, in shader-location order.
pub open spec fn spec_vertex_attributes(layout: VertexLayout) -> Seq<VertexAttr> {
    let head = seq![
        VertexAttr { format: AttrFormat::F32x2, offset: 0u32, location: 0u32 },
        VertexAttr { format: AttrFormat::U8x4, offset: 8u32, location: 1u32 },
        VertexAttr { format: AttrFormat::F32x2, offset: 12u32, location: 2u32 },
    ];
    match layout {
        VertexLayout::Simple => head,
        VertexLayout::Extended => head + seq![
            VertexAttr { format: AttrFormat::F32x2, offset: 20u32, location: 3u32 },
            VertexAttr { format: AttrFormat::F32x4, offset: 28u32, location: 4u32 },
            VertexAttr { format: AttrFormat::F32x4, offset: 44u32, location: 5u32 },
            VertexAttr { format: AttrFormat::F32x4, offset: 60u32, location: 6u32 },
            VertexAttr { format: AttrFormat::F32x4, offset: 76u32, location: 7u32 },
            VertexAttr { format: AttrFormat::F32x4, offset: 92u32, location: 8u32 },
            VertexAttr { format: AttrFormat::F32x4, offset: 108u32, location: 9u32 },
            VertexAttr { format: AttrFormat::F32x4, offset: 124u32, location: 10u32 },
        ],
    }
}

/// Builds the attribute table of the given layout, in shader-location
/// order and with the engine-defined byte offsets.
pub fn vertex_attributes(layout: VertexLayout) -> (r: Vec<VertexAttr>)
    ensures
        r@ == spec_vertex_attributes(layout),
{
    let mut attrs: Vec<VertexAttr> = Vec::new();
    attrs.push(VertexAttr { format: AttrFormat::F32x2, offset: 0, location: 0 });
    attrs.push(VertexAttr { format: AttrFormat::U8x4, offset: 8, location: 1 });
    attrs.push(VertexAttr { format: AttrFormat::F32x2, offset: 12, location: 2 });
    match layout {
        VertexLayout::Simple => {},
        VertexLayout::Extended => {
            attrs.push(VertexAttr { format: AttrFormat::F32x2, offset: 20, location: 3 });
            attrs.push(VertexAttr { format: AttrFormat::F32x4, offset: 28, location: 4 });
            attrs.push(VertexAttr { format: AttrFormat::F32x4, offset: 44, location: 5 });
            attrs.push(VertexAttr { format: AttrFormat::F32x4, offset: 60, location: 6 });
            attrs.push(VertexAttr { format: AttrFormat::F32x4, offset: 76, location: 7 });
            attrs.push(VertexAttr { format: AttrFormat::F32x4, offset: 92, location: 8 });
            attrs.push(VertexAttr { format: AttrFormat::F32x4, offset: 108, location: 9 });
            attrs.push(VertexAttr { format: AttrFormat::F32x4, offset: 124, location: 10 });
        },
    }
    proof {
        assert(attrs@ =~= spec_vertex_attributes(layout));
    }
    attrs
}

/// Shader program pair a draw selects.
#[derive(Clone, Copy, PartialEq, Eq, Structural, Debug)]
pub enum ShaderKind {
    /// The general fill program pair.
    Fill,
    /// The path-fill program pair.
    FillPath,
}

/// Immutable per-draw state snapshot supplied by the engine.
///
/// `transform`, `uniform_scalar`, `uniform_vector` and `clip` are raw
/// 32-bit words the engine computed; the bridge forwards them into the
/// draw's uniform block unchanged.
#[derive(Clone, Copy, PartialEq, Eq, Debug)]
pub struct GpuState {
    /// Viewport width in pixels.
    pub viewport_width: u32,
    /// Viewport height in pixels.
    pub viewport_height: u32,
    /// Row-major 4×4 transform, raw words; the backend combines it with
    /// the engine's projection for the viewport.
    pub transform: [u32; 16],
    /// Whether the draw blends over the target or overwrites it.
    pub enable_blend: bool,
    /// Shader program pair to use.
    pub shader_kind: ShaderKind,
    /// Primary sampled texture handle; 0 or a destroyed handle selects the
    /// placeholder.
    pub texture_1_id: u32,
    /// Secondary sampled texture handle, with the same fallback.
    pub texture_2_id: u32,
    /// Eight scalar uniforms, raw words.
    pub uniform_scalar: [u32; 8],
    /// Eight vector uniforms, raw words.
    pub uniform_vector: [[u32; 4]; 8],
    /// How many clip matrices are meaningful.
    pub clip_size: u32,
    /// Eight clip matrices, raw words.
    pub clip: [[u32; 16]; 8],
    /// Whether the engine asked for scissor clipping (accepted, not
    /// honored; see the translator).
    pub enable_scissor: bool,
}

/// What a render buffer is: a color target backed by one of the bridge's
/// textures, plus attachment requests the bridge accepts but does not
/// honor.
#[derive(Clone, Copy, PartialEq, Eq, Structural, Debug)]
pub struct RenderBufferDesc {
    /// Handle of the texture that serves as the color target.
    pub texture_id: u32,
    /// Width in pixels.
    pub width: u32,
    /// Height in pixels.
    pub height: u32,
    /// Whether the engine asked for a depth attachment (unsupported).
    pub has_depth_buffer: bool,
    /// Whether the engine asked for a stencil attachment (unsupported).
    pub has_stencil_buffer: bool,
}

/// One entry of a submitted command list.  The vocabulary is closed and
/// fixed by the engine's contract.
#[derive(Clone, Copy, PartialEq, Eq, Debug)]
pub enum GpuCommand {
    /// Reset the render buffer's backing texture to undefined/zeroed
    /// contents, as a hardware clear does.
    ClearRenderBuffer {
        /// Target render buffer.
        render_buffer_id: u32,
    },
    /// Draw an indexed sub-range of a geometry onto a render buffer,
    /// preserving what earlier commands left there.
    DrawGeometry {
        /// Target render buffer.
        render_buffer_id: u32,
        /// Geometry to draw.
        geometry_id: u32,
        /// First index of the sub-range.
        indices_offset: u32,
        /// Number of indices drawn.
        indices_count: u32,
        /// Per-draw state snapshot.
        state: GpuState,
    },
}

} // verus!
