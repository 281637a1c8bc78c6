use ultralight::gpu::bitmap::{expand_alpha, BitmapData};
use ultralight::gpu::driver::{BridgeError, CoreDriver, ResourceKind};
use ultralight::gpu::ids::IdAllocator;
use ultralight::gpu::ops::{pack_uniform_words, GpuOp, TextureSource, UniformBlock, UNIFORM_BLOCK_BYTES};
use ultralight::gpu::state::{
    texture_format_of, vertex_attributes, vertex_stride, AttrFormat, BitmapFormat, GpuCommand,
    GpuState, RenderBufferDesc, ShaderKind, TexFormat, VertexLayout,
};
use ultralight::gpu_driver::{DriverHost, GpuDriver};

fn plain_state(viewport: u32) -> GpuState {
    GpuState {
        viewport_width: viewport,
        viewport_height: viewport,
        transform: [0; 16],
        enable_blend: false,
        shader_kind: ShaderKind::Fill,
        texture_1_id: 0,
        texture_2_id: 0,
        uniform_scalar: [0; 8],
        uniform_vector: [[0; 4]; 8],
        clip_size: 0,
        clip: [[0; 16]; 8],
        enable_scissor: false,
    }
}

fn bgra_bitmap(width: u32, height: u32) -> BitmapData {
    BitmapData {
        width,
        height,
        format: BitmapFormat::Bgra8Srgb,
        is_empty: false,
        pixels: vec![0u8; (width * height * 4) as usize],
    }
}

fn empty_bgra_bitmap(width: u32, height: u32) -> BitmapData {
    BitmapData {
        width,
        height,
        format: BitmapFormat::Bgra8Srgb,
        is_empty: true,
        pixels: Vec::new(),
    }
}

fn quad_geometry(driver: &mut CoreDriver, id: u32) {
    // A quad in the simple 20-byte layout: four vertices, six indices.
    let vertices = vec![0u8; 4 * vertex_stride(VertexLayout::Simple) as usize];
    let indices_u32: [u32; 6] = [0, 1, 2, 2, 1, 3];
    let mut indices = Vec::new();
    for i in indices_u32 {
        indices.extend_from_slice(&i.to_le_bytes());
    }
    driver
        .create_geometry(id, VertexLayout::Simple, vertices, indices)
        .unwrap();
}

#[test]
fn texture_table_tracks_latest_payload() {
    let mut d = CoreDriver::new();
    assert!(d.get_texture(7).is_none());
    d.create_texture(7, &bgra_bitmap(2, 2)).unwrap();
    let e = d.get_texture(7).unwrap();
    assert_eq!(e.width, 2);
    assert_eq!(e.format, TexFormat::Bgra8Srgb);
    // Updating keeps the texture's identity and extent.
    d.update_texture(7, &bgra_bitmap(2, 2)).unwrap();
    assert_eq!(d.get_texture(7).unwrap().width, 2);
    d.destroy_texture(7);
    assert!(d.get_texture(7).is_none());
    // A destroyed handle stays absent until a new create.
    assert!(d.update_texture(7, &bgra_bitmap(2, 2)).is_err());
}

#[test]
fn duplicate_texture_create_is_refused() {
    let mut d = CoreDriver::new();
    d.create_texture(1, &bgra_bitmap(1, 1)).unwrap();
    let err = d.create_texture(1, &bgra_bitmap(1, 1)).unwrap_err();
    assert_eq!(
        err,
        BridgeError::DuplicateId { kind: ResourceKind::Texture, id: 1 }
    );
}

#[test]
fn texture_ids_count_up_from_one() {
    let mut d = CoreDriver::new();
    assert_eq!(d.next_texture_id(), 1);
    assert_eq!(d.next_texture_id(), 2);
    assert_eq!(d.next_texture_id(), 3);
    assert_eq!(d.next_geometry_id(), 1);
    assert_eq!(d.next_geometry_id(), 2);
}

#[test]
fn render_buffer_ids_recycle_freed_handles() {
    let mut a = IdAllocator::new();
    // N = 4 creates.
    let mut issued = Vec::new();
    for _ in 0..4 {
        issued.push(a.next_render_buffer_id());
    }
    assert_eq!(issued, vec![0, 1, 2, 3]);
    // M = 2 destroys.
    a.free_render_buffer_id(1);
    a.free_render_buffer_id(3);
    // The next allocations reissue the freed handles, never a fresh one,
    // until the free list is exhausted.
    let first = a.next_render_buffer_id();
    let second = a.next_render_buffer_id();
    assert!(first == 1 || first == 3);
    assert!(second == 1 || second == 3);
    assert_ne!(first, second);
    // Free list exhausted: back to the counter.
    assert_eq!(a.next_render_buffer_id(), 4);
}

#[test]
fn driver_recycles_destroyed_render_buffers() {
    let mut d = CoreDriver::new();
    let desc = RenderBufferDesc {
        texture_id: 1,
        width: 8,
        height: 8,
        has_depth_buffer: false,
        has_stencil_buffer: false,
    };
    assert_eq!(d.next_render_buffer_id(), 0);
    assert_eq!(d.next_render_buffer_id(), 1);
    d.create_render_buffer(0, desc).unwrap();
    d.create_render_buffer(1, desc).unwrap();
    d.destroy_render_buffer(0);
    assert_eq!(d.next_render_buffer_id(), 0);
    assert_eq!(d.next_render_buffer_id(), 2);
    // Destroying a dead handle frees nothing.
    d.destroy_render_buffer(42);
    assert_eq!(d.next_render_buffer_id(), 3);
}

#[test]
fn alpha_expansion_replicates_each_byte() {
    let input = vec![0x00u8, 0x7f, 0xff, 0x10];
    let out = expand_alpha(&input);
    assert_eq!(out.len(), 16);
    assert_eq!(
        out,
        vec![
            0x00, 0x00, 0x00, 0x00, 0x7f, 0x7f, 0x7f, 0x7f, 0xff, 0xff, 0xff, 0xff, 0x10, 0x10,
            0x10, 0x10
        ]
    );
}

#[test]
fn alpha_texture_update_expands_and_restrides() {
    let mut d = CoreDriver::new();
    let bitmap = BitmapData {
        width: 2,
        height: 2,
        format: BitmapFormat::A8,
        is_empty: false,
        pixels: vec![1, 2, 3, 4],
    };
    let init = d.create_texture(9, &bitmap).unwrap();
    // Alpha bitmaps are stored four channels wide.
    assert_eq!(init.format, TexFormat::Bgra8);
    assert_eq!(texture_format_of(BitmapFormat::A8), TexFormat::Bgra8);
    let first = init.upload.unwrap();
    assert_eq!(first.bytes_per_row, 8);
    assert_eq!(first.data, vec![1, 1, 1, 1, 2, 2, 2, 2, 3, 3, 3, 3, 4, 4, 4, 4]);
    let again = d.update_texture(9, &bitmap).unwrap();
    assert_eq!(again.width, 2);
    assert_eq!(again.height, 2);
    assert_eq!(again.bytes_per_row, 8);
    assert_eq!(again.data, first.data);
}

#[test]
fn bgra_texture_update_copies_bytes_verbatim() {
    let mut d = CoreDriver::new();
    let mut bitmap = bgra_bitmap(1, 2);
    bitmap.pixels = vec![1, 2, 3, 4, 5, 6, 7, 8];
    d.create_texture(3, &bitmap).unwrap();
    let up = d.update_texture(3, &bitmap).unwrap();
    assert_eq!(up.bytes_per_row, 4);
    assert_eq!(up.data, vec![1, 2, 3, 4, 5, 6, 7, 8]);
}

#[test]
fn malformed_and_mismatched_bitmaps_are_refused() {
    let mut d = CoreDriver::new();
    let mut bad = bgra_bitmap(2, 2);
    bad.pixels = vec![0u8; 3];
    assert_eq!(
        d.create_texture(1, &bad).unwrap_err(),
        BridgeError::MalformedBitmap { id: 1 }
    );
    d.create_texture(1, &bgra_bitmap(2, 2)).unwrap();
    assert_eq!(
        d.update_texture(1, &bad).unwrap_err(),
        BridgeError::MalformedBitmap { id: 1 }
    );
    assert_eq!(
        d.update_texture(1, &bgra_bitmap(4, 4)).unwrap_err(),
        BridgeError::SizeMismatch { id: 1 }
    );
    assert_eq!(
        d.update_texture(2, &bgra_bitmap(2, 2)).unwrap_err(),
        BridgeError::UnknownId { kind: ResourceKind::Texture, id: 2 }
    );
}

#[test]
fn geometry_lifecycle_and_errors() {
    let mut d = CoreDriver::new();
    quad_geometry(&mut d, 1);
    assert_eq!(
        d.get_geometry(1).unwrap().layout,
        VertexLayout::Simple
    );
    let err = d
        .create_geometry(1, VertexLayout::Simple, Vec::new(), Vec::new())
        .unwrap_err();
    assert_eq!(
        err,
        BridgeError::DuplicateId { kind: ResourceKind::Geometry, id: 1 }
    );
    // Wholesale replacement under the same handle.
    d.update_geometry(1, VertexLayout::Extended, vec![0u8; 140], vec![0u8; 4])
        .unwrap();
    assert_eq!(d.get_geometry(1).unwrap().layout, VertexLayout::Extended);
    assert_eq!(d.get_geometry(1).unwrap().vertices.len(), 140);
    assert_eq!(
        d.update_geometry(2, VertexLayout::Simple, Vec::new(), Vec::new())
            .unwrap_err(),
        BridgeError::UnknownId { kind: ResourceKind::Geometry, id: 2 }
    );
    d.destroy_geometry(1);
    assert!(d.get_geometry(1).is_none());
}

#[test]
fn duplicate_render_buffer_create_is_refused() {
    let mut d = CoreDriver::new();
    let desc = RenderBufferDesc {
        texture_id: 1,
        width: 8,
        height: 8,
        has_depth_buffer: false,
        has_stencil_buffer: false,
    };
    assert!(d.create_render_buffer(5, desc).is_ok());
    assert_eq!(
        d.create_render_buffer(5, desc).unwrap_err(),
        BridgeError::DuplicateId { kind: ResourceKind::RenderBuffer, id: 5 }
    );
}

#[test]
fn command_list_translates_in_order_across_clears() {
    let mut d = CoreDriver::new();
    d.create_texture(1, &empty_bgra_bitmap(64, 64)).unwrap();
    d.create_render_buffer(1, RenderBufferDesc {
        texture_id: 1,
        width: 64,
        height: 64,
        has_depth_buffer: false,
        has_stencil_buffer: false,
    })
    .unwrap();
    quad_geometry(&mut d, 1);
    quad_geometry(&mut d, 2);
    let commands = vec![
        GpuCommand::ClearRenderBuffer { render_buffer_id: 1 },
        GpuCommand::DrawGeometry {
            render_buffer_id: 1,
            geometry_id: 1,
            indices_offset: 0,
            indices_count: 6,
            state: plain_state(64),
        },
        GpuCommand::ClearRenderBuffer { render_buffer_id: 1 },
        GpuCommand::DrawGeometry {
            render_buffer_id: 1,
            geometry_id: 2,
            indices_offset: 0,
            indices_count: 6,
            state: plain_state(64),
        },
    ];
    d.update_command_list(&commands).unwrap();
    let buffers = d.drain_pending();
    assert_eq!(buffers.len(), 1);
    let ops = &buffers[0];
    assert_eq!(ops.len(), 4);
    // One operation per command, in command order: the second clear
    // stands after the first draw, so its erasure is not reordered.
    assert!(matches!(ops[0], GpuOp::ClearTexture { texture_id: 1 }));
    match &ops[1] {
        GpuOp::Draw(dr) => assert_eq!(dr.geometry_id, 1),
        other => panic!("expected a draw, got {:?}", other),
    }
    assert!(matches!(ops[2], GpuOp::ClearTexture { texture_id: 1 }));
    match &ops[3] {
        GpuOp::Draw(dr) => {
            assert_eq!(dr.geometry_id, 2);
            assert_eq!(dr.target_texture_id, 1);
        },
        other => panic!("expected a draw, got {:?}", other),
    }
    // The pool was drained.
    assert!(d.drain_pending().is_empty());
}

#[test]
fn missing_sampled_texture_binds_placeholder() {
    let mut d = CoreDriver::new();
    d.create_texture(1, &empty_bgra_bitmap(8, 8)).unwrap();
    d.create_render_buffer(1, RenderBufferDesc {
        texture_id: 1,
        width: 8,
        height: 8,
        has_depth_buffer: false,
        has_stencil_buffer: false,
    })
    .unwrap();
    quad_geometry(&mut d, 1);
    let mut state = plain_state(8);
    state.texture_1_id = 999;
    state.texture_2_id = 0;
    let commands = vec![GpuCommand::DrawGeometry {
        render_buffer_id: 1,
        geometry_id: 1,
        indices_offset: 0,
        indices_count: 6,
        state,
    }];
    // No fatal error: the draw still executes, sampling the placeholder.
    d.update_command_list(&commands).unwrap();
    let buffers = d.drain_pending();
    match &buffers[0][0] {
        GpuOp::Draw(dr) => {
            assert_eq!(dr.texture_1, TextureSource::Placeholder);
            assert_eq!(dr.texture_2, TextureSource::Placeholder);
        },
        other => panic!("expected a draw, got {:?}", other),
    }
}

#[test]
fn command_faults_are_fatal_and_atomic() {
    let mut d = CoreDriver::new();
    let commands = vec![GpuCommand::ClearRenderBuffer { render_buffer_id: 3 }];
    assert_eq!(
        d.update_command_list(&commands).unwrap_err(),
        BridgeError::UnknownId { kind: ResourceKind::RenderBuffer, id: 3 }
    );
    assert!(d.drain_pending().is_empty());
    // A render buffer whose backing texture is gone is a fault too.
    d.create_texture(1, &empty_bgra_bitmap(8, 8)).unwrap();
    d.create_render_buffer(3, RenderBufferDesc {
        texture_id: 1,
        width: 8,
        height: 8,
        has_depth_buffer: false,
        has_stencil_buffer: false,
    })
    .unwrap();
    d.destroy_texture(1);
    assert_eq!(
        d.update_command_list(&commands).unwrap_err(),
        BridgeError::UnknownId { kind: ResourceKind::Texture, id: 1 }
    );
    // A draw naming a dead geometry is fatal, unlike a dead sampled
    // texture.
    d.create_texture(1, &empty_bgra_bitmap(8, 8)).unwrap();
    let draw = vec![GpuCommand::DrawGeometry {
        render_buffer_id: 3,
        geometry_id: 12,
        indices_offset: 0,
        indices_count: 6,
        state: plain_state(8),
    }];
    assert_eq!(
        d.update_command_list(&draw).unwrap_err(),
        BridgeError::UnknownId { kind: ResourceKind::Geometry, id: 12 }
    );
    assert!(d.drain_pending().is_empty());
}

#[test]
fn sampling_the_draw_target_is_refused() {
    let mut d = CoreDriver::new();
    d.create_texture(1, &empty_bgra_bitmap(8, 8)).unwrap();
    d.create_render_buffer(1, RenderBufferDesc {
        texture_id: 1,
        width: 8,
        height: 8,
        has_depth_buffer: false,
        has_stencil_buffer: false,
    })
    .unwrap();
    quad_geometry(&mut d, 1);
    let mut state = plain_state(8);
    state.texture_1_id = 1;
    let commands = vec![GpuCommand::DrawGeometry {
        render_buffer_id: 1,
        geometry_id: 1,
        indices_offset: 0,
        indices_count: 6,
        state,
    }];
    assert_eq!(
        d.update_command_list(&commands).unwrap_err(),
        BridgeError::TargetSampled { id: 1 }
    );
    assert!(d.drain_pending().is_empty());
}

#[test]
fn full_frame_scenario_encodes_clear_then_draw() {
    let mut d = CoreDriver::new();
    d.create_texture(1, &empty_bgra_bitmap(64, 64)).unwrap();
    d.create_render_buffer(1, RenderBufferDesc {
        texture_id: 1,
        width: 64,
        height: 64,
        has_depth_buffer: false,
        has_stencil_buffer: false,
    })
    .unwrap();
    quad_geometry(&mut d, 1);
    let commands = vec![
        GpuCommand::ClearRenderBuffer { render_buffer_id: 1 },
        GpuCommand::DrawGeometry {
            render_buffer_id: 1,
            geometry_id: 1,
            indices_offset: 0,
            indices_count: 6,
            state: plain_state(64),
        },
    ];
    d.update_command_list(&commands).unwrap();
    let buffers = d.drain_pending();
    assert_eq!(buffers.len(), 1);
    let ops = &buffers[0];
    assert_eq!(ops.len(), 2);
    assert!(matches!(ops[0], GpuOp::ClearTexture { texture_id: 1 }));
    match &ops[1] {
        GpuOp::Draw(dr) => {
            // The draw targets texture 1's view as color target, blending
            // disabled, with the general fill shaders and the 64×64
            // viewport in the uniform block; no depth attachment exists in
            // the operation vocabulary.
            assert_eq!(dr.target_texture_id, 1);
            assert_eq!(dr.target_format, TexFormat::Bgra8Srgb);
            assert!(!dr.pipeline.blend);
            assert_eq!(dr.pipeline.shader, ShaderKind::Fill);
            assert_eq!(dr.pipeline.layout, VertexLayout::Simple);
            assert_eq!(dr.uniforms.viewport_width, 64);
            assert_eq!(dr.uniforms.viewport_height, 64);
            assert_eq!(dr.indices_offset, 0);
            assert_eq!(dr.indices_count, 6);
        },
        other => panic!("expected a draw, got {:?}", other),
    }
}

#[test]
fn pipeline_cache_reuses_slots_per_key() {
    let mut d = CoreDriver::new();
    d.create_texture(1, &empty_bgra_bitmap(8, 8)).unwrap();
    d.create_render_buffer(1, RenderBufferDesc {
        texture_id: 1,
        width: 8,
        height: 8,
        has_depth_buffer: false,
        has_stencil_buffer: false,
    })
    .unwrap();
    quad_geometry(&mut d, 1);
    let draw = GpuCommand::DrawGeometry {
        render_buffer_id: 1,
        geometry_id: 1,
        indices_offset: 0,
        indices_count: 6,
        state: plain_state(8),
    };
    let mut blended = plain_state(8);
    blended.enable_blend = true;
    let other = GpuCommand::DrawGeometry {
        render_buffer_id: 1,
        geometry_id: 1,
        indices_offset: 0,
        indices_count: 6,
        state: blended,
    };
    d.update_command_list(&vec![draw, other, draw, other]).unwrap();
    // Two distinct keys, so two slots, each reused by its repeat.
    assert_eq!(d.pipeline_count(), 2);
    let buffers = d.drain_pending();
    let slots: Vec<usize> = buffers[0]
        .iter()
        .map(|op| match op {
            GpuOp::Draw(dr) => dr.pipeline_slot,
            other => panic!("expected a draw, got {:?}", other),
        })
        .collect();
    assert_eq!(slots, vec![0, 1, 0, 1]);
    assert!(d.pipeline_key_at(1).blend);
    assert!(!d.pipeline_key_at(0).blend);
}

#[test]
fn pending_pool_drains_in_submission_order() {
    let mut d = CoreDriver::new();
    d.create_texture(1, &empty_bgra_bitmap(8, 8)).unwrap();
    d.create_texture(2, &empty_bgra_bitmap(8, 8)).unwrap();
    for (rb, tex) in [(1u32, 1u32), (2, 2)] {
        d.create_render_buffer(rb, RenderBufferDesc {
            texture_id: tex,
            width: 8,
            height: 8,
            has_depth_buffer: false,
            has_stencil_buffer: false,
        })
        .unwrap();
    }
    d.update_command_list(&vec![GpuCommand::ClearRenderBuffer { render_buffer_id: 1 }])
        .unwrap();
    d.update_command_list(&vec![GpuCommand::ClearRenderBuffer { render_buffer_id: 2 }])
        .unwrap();
    let buffers = d.drain_pending();
    assert_eq!(buffers.len(), 2);
    assert!(matches!(buffers[0][0], GpuOp::ClearTexture { texture_id: 1 }));
    assert!(matches!(buffers[1][0], GpuOp::ClearTexture { texture_id: 2 }));
}

#[test]
fn vertex_layout_tables_are_fixed() {
    assert_eq!(vertex_stride(VertexLayout::Simple), 20);
    assert_eq!(vertex_stride(VertexLayout::Extended), 140);
    let simple = vertex_attributes(VertexLayout::Simple);
    assert_eq!(simple.len(), 3);
    assert_eq!(simple[0].format, AttrFormat::F32x2);
    assert_eq!(simple[0].offset, 0);
    assert_eq!(simple[1].format, AttrFormat::U8x4);
    assert_eq!(simple[1].offset, 8);
    assert_eq!(simple[2].format, AttrFormat::F32x2);
    assert_eq!(simple[2].offset, 12);
    let extended = vertex_attributes(VertexLayout::Extended);
    assert_eq!(extended.len(), 11);
    for (slot, attr) in extended.iter().enumerate() {
        assert_eq!(attr.location, slot as u32);
    }
    assert_eq!(extended[3].offset, 20);
    assert_eq!(extended[3].format, AttrFormat::F32x2);
    for k in 0..7 {
        assert_eq!(extended[4 + k].format, AttrFormat::F32x4);
        assert_eq!(extended[4 + k].offset, 28 + 16 * k as u32);
    }
}

#[test]
fn uniform_block_packs_in_field_order() {
    let mut uniforms = UniformBlock {
        viewport_width: 64,
        viewport_height: 64,
        transform: [0; 16],
        scalar: [0; 8],
        vector: [[0; 4]; 8],
        clip_size: 5,
        clip: [[0; 16]; 8],
    };
    for s in 0..8 {
        uniforms.scalar[s] = 100 + s as u32;
    }
    for v in 0..8 {
        for j in 0..4 {
            uniforms.vector[v][j] = 1000 + (v * 4 + j) as u32;
        }
    }
    for c in 0..8 {
        for k in 0..16 {
            uniforms.clip[c][k] = 2000 + (c * 16 + k) as u32;
        }
    }
    let state_vec: [u32; 4] = [10, 11, 12, 13];
    let mut transform: [u32; 16] = [0; 16];
    for t in 0..16 {
        transform[t] = 50 + t as u32;
    }
    let words = pack_uniform_words(&state_vec, &transform, &uniforms);
    assert_eq!(words.len() * 4, UNIFORM_BLOCK_BYTES);
    assert_eq!(&words[0..4], &state_vec);
    assert_eq!(&words[4..20], &transform);
    for s in 0..8 {
        assert_eq!(words[20 + s], 100 + s as u32);
    }
    for v in 0..8 {
        for j in 0..4 {
            assert_eq!(words[28 + 4 * v + j], 1000 + (v * 4 + j) as u32);
        }
    }
    assert_eq!(words[60], 5);
    assert_eq!(&words[61..64], &[0, 0, 0]);
    for c in 0..8 {
        for k in 0..16 {
            assert_eq!(words[64 + 16 * c + k], 2000 + (c * 16 + k) as u32);
        }
    }
}

#[test]
fn host_refuses_calls_before_installation() {
    let mut host: DriverHost<CoreDriver> = DriverHost::new();
    assert!(host.static_gpu_driver().is_none());
    assert!(host.next_texture_id().is_none());
    assert!(host.create_texture(1, &bgra_bitmap(1, 1)).is_none());
    assert!(!host.destroy_texture(1));
    assert!(!host.begin_synchronize());
    host.set_gpu_driver(CoreDriver::new());
    assert!(host.static_gpu_driver().is_some());
    assert!(host.begin_synchronize());
    assert_eq!(host.next_texture_id(), Some(1));
    assert_eq!(host.next_texture_id(), Some(2));
    assert!(host.create_texture(1, &bgra_bitmap(1, 1)).unwrap().is_ok());
    assert!(host.destroy_texture(1));
    assert!(host.end_synchronize());
}

#[test]
fn host_forwards_through_the_driver_trait() {
    // The host reaches any GpuDriver implementation; CoreDriver is one.
    let mut host: DriverHost<CoreDriver> = DriverHost::new();
    host.set_gpu_driver(CoreDriver::new());
    assert_eq!(host.next_render_buffer_id(), Some(0));
    host.create_texture(1, &empty_bgra_bitmap(4, 4))
        .unwrap()
        .unwrap();
    host.create_render_buffer(0, RenderBufferDesc {
        texture_id: 1,
        width: 4,
        height: 4,
        has_depth_buffer: false,
        has_stencil_buffer: false,
    })
    .unwrap()
    .unwrap();
    host.create_geometry(1, VertexLayout::Simple, vec![0u8; 20], vec![0u8; 4])
        .unwrap()
        .unwrap();
    host.update_geometry(1, VertexLayout::Simple, vec![0u8; 40], vec![0u8; 8])
        .unwrap()
        .unwrap();
    let cmds = vec![GpuCommand::ClearRenderBuffer { render_buffer_id: 0 }];
    host.update_command_list(&cmds).unwrap().unwrap();
    assert!(host.destroy_render_buffer(0));
    assert!(host.destroy_geometry(1));
    let driver = host.driver_mut().unwrap();
    assert_eq!(driver.drain_pending().len(), 1);
    // A trait-object-free generic driver also works through the trait
    // methods directly.
    let mut d = CoreDriver::new();
    assert_eq!(GpuDriver::next_texture_id(&mut d), 1);
}
