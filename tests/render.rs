use overlay_render::buffer::DynamicBuffer;
use overlay_render::color::{swap_channels, ColorBytes};
use overlay_render::engine::{D3D9RenderEngine, INITIAL_INDEX_CAPACITY, INITIAL_VERTEX_CAPACITY};
use overlay_render::error::RenderError;
use overlay_render::frame::{
    build_calls, flatten, DeviceCall, DrawCommand, DrawData, DrawList, NativeVertex, ScissorRect,
    Vertex,
};
use overlay_render::state::{restore_sequence, RestoreStep};
use overlay_render::sync::{
    plan_descriptor, region_texels, sync_descriptor, TextureDescriptor, TextureStatus, TextureWork,
    UpdateRect,
};
use overlay_render::texture::TextureHeap;

fn cb(b0: u8, b1: u8, b2: u8, b3: u8) -> ColorBytes {
    ColorBytes { b0, b1, b2, b3 }
}

fn rgba_image(width: u32, height: u32) -> Vec<u8> {
    let mut v = Vec::new();
    for i in 0..(width * height) {
        let n = i as u8;
        v.extend_from_slice(&[n, n.wrapping_add(1), n.wrapping_add(2), 200]);
    }
    v
}

fn descriptor(status: TextureStatus, width: u32, height: u32, pixels: Option<Vec<u8>>) -> TextureDescriptor {
    TextureDescriptor {
        status,
        width,
        height,
        pixels,
        pitch: width as usize * 4,
        bytes_per_pixel: 4,
        updates: Vec::new(),
        update_rect: UpdateRect { x: 0, y: 0, w: 0, h: 0 },
        tex_id: None,
    }
}

fn vertex(n: u32, col: ColorBytes) -> Vertex {
    Vertex { x: n, y: n + 1, u: n + 2, v: n + 3, col }
}

fn scissor(left: i32, top: i32, right: i32, bottom: i32) -> ScissorRect {
    ScissorRect { left, top, right, bottom }
}

#[test]
fn buffer_capacity_grows_and_never_shrinks() {
    let mut b: DynamicBuffer<u16> = DynamicBuffer::new(4);
    let frames = [3usize, 9, 2, 12, 5];
    let mut last = b.resource_capacity;
    let mut grows = Vec::new();
    for &n in frames.iter() {
        b.clear();
        b.extend((0..n as u16).collect());
        let need = b.needed_capacity();
        if let Some(c) = need {
            b.resource_replaced(c);
        }
        grows.push(need);
        assert!(b.resource_capacity >= n);
        assert!(b.resource_capacity >= last);
        last = b.resource_capacity;
    }
    assert_eq!(grows, vec![None, Some(9), None, Some(12), None]);
    assert_eq!(b.resource_capacity, 12);
}

#[test]
fn buffer_clear_keeps_capacity() {
    let mut b: DynamicBuffer<u16> = DynamicBuffer::new(2);
    b.extend(vec![1, 2, 3]);
    assert_eq!(b.needed_capacity(), Some(3));
    assert_eq!(b.resource_capacity, 2);
    b.resource_replaced(3);
    b.clear();
    assert_eq!(b.data.len(), 0);
    assert_eq!(b.resource_capacity, 3);
    b.extend(vec![7]);
    b.extend(vec![8, 9]);
    assert_eq!(b.data, vec![7, 8, 9]);
    assert_eq!(b.needed_capacity(), None);
}

#[test]
fn swap_channels_exchanges_first_and_third() {
    assert_eq!(swap_channels(cb(1, 2, 3, 4)), cb(3, 2, 1, 4));
}

#[test]
fn upload_with_mismatched_size_is_refused_and_writes_nothing() {
    let mut heap = TextureHeap::new();
    let h = heap.create(2, 2);
    assert_eq!(h, 0);
    heap.upload(h, &rgba_image(2, 2), 2, 2).unwrap();
    let before = heap.get(h).texels.clone();
    let r = heap.upload(h, &rgba_image(3, 2), 3, 2);
    assert_eq!(
        r,
        Err(RenderError::DimensionMismatch { expected_width: 2, expected_height: 2, width: 3, height: 2 })
    );
    assert_eq!(heap.get(h).texels, before);
}

#[test]
fn full_upload_swaps_red_and_blue() {
    let mut heap = TextureHeap::new();
    let h = heap.create(2, 1);
    heap.upload(h, &vec![10, 20, 30, 40, 50, 60, 70, 80], 2, 1).unwrap();
    assert_eq!(heap.get(h).texels, vec![cb(30, 20, 10, 40), cb(70, 60, 50, 80)]);
}

#[test]
fn alpha_only_pixels_become_white_with_alpha() {
    let mut heap = TextureHeap::new();
    let h = heap.create(3, 2);
    // rows of 4 bytes, 3 pixels used per row
    let data = vec![1, 2, 3, 99, 4, 5, 6, 99];
    heap.upload_region(h, &data, 3, 2, 4, 1, 0, 2, 2, 1).unwrap();
    let t = &heap.get(h).texels;
    let blank = cb(0, 0, 0, 0);
    assert_eq!(t[0], blank);
    assert_eq!(t[1], cb(255, 255, 255, 2));
    assert_eq!(t[2], cb(255, 255, 255, 3));
    assert_eq!(t[3], blank);
    assert_eq!(t[4], cb(255, 255, 255, 5));
    assert_eq!(t[5], cb(255, 255, 255, 6));
}

#[test]
fn region_outside_texture_is_a_mapping_failure() {
    let mut heap = TextureHeap::new();
    let h = heap.create(2, 2);
    let r = heap.upload_region(h, &rgba_image(2, 2), 2, 2, 8, 1, 1, 2, 1, 4);
    assert_eq!(r, Err(RenderError::MappingFailure));
    assert_eq!(heap.get(h).texels, vec![cb(0, 0, 0, 0); 4]);
}

#[test]
fn handles_are_sequential_from_zero() {
    let mut heap = TextureHeap::new();
    assert_eq!(heap.create(1, 1), 0);
    assert_eq!(heap.create(4, 4), 1);
    assert_eq!(heap.create(1, 1), 2);
    assert_eq!(heap.len(), 3);
    assert_eq!(heap.get(1).width, 4);
}

#[test]
fn want_create_makes_one_texture_and_one_full_upload() {
    let mut heap = TextureHeap::new();
    let image = rgba_image(64, 32);
    let mut d = descriptor(TextureStatus::WantCreate, 64, 32, Some(image.clone()));
    let work = sync_descriptor(&mut heap, &mut d).unwrap();
    assert_eq!(
        work,
        vec![
            TextureWork::Create { handle: 0, width: 64, height: 32 },
            TextureWork::Upload { handle: 0, rect: UpdateRect { x: 0, y: 0, w: 64, h: 32 } },
        ]
    );
    assert_eq!(d.status, TextureStatus::Ready);
    assert!(d.tex_id.is_some());
    assert_eq!(d.tex_id, Some(0));
    assert_eq!(heap.len(), 1);
    let t = &heap.get(0).texels;
    assert_eq!(t[0], cb(image[2], image[1], image[0], image[3]));
    let last = 64 * 32 - 1;
    assert_eq!(t[last], cb(image[4 * last + 2], image[4 * last + 1], image[4 * last], 200));
}

#[test]
fn want_updates_with_two_rects_uploads_exactly_those() {
    let mut heap = TextureHeap::new();
    let h = heap.create(4, 4);
    let image = rgba_image(4, 4);
    let mut d = descriptor(TextureStatus::WantUpdates, 4, 4, Some(image.clone()));
    d.tex_id = Some(h);
    let r1 = UpdateRect { x: 0, y: 0, w: 1, h: 2 };
    let r2 = UpdateRect { x: 2, y: 3, w: 2, h: 1 };
    d.updates = vec![r1, UpdateRect { x: 1, y: 1, w: 0, h: 3 }, r2];
    let work = sync_descriptor(&mut heap, &mut d).unwrap();
    assert_eq!(
        work,
        vec![TextureWork::Upload { handle: h, rect: r1 }, TextureWork::Upload { handle: h, rect: r2 }]
    );
    assert_eq!(d.status, TextureStatus::Ready);
    let t = &heap.get(h).texels;
    for py in 0..4usize {
        for px in 0..4usize {
            let inside = (px == 0 && py < 2) || (px >= 2 && py == 3);
            let i = py * 4 + px;
            if inside {
                let s = i * 4;
                assert_eq!(t[i], cb(image[s + 2], image[s + 1], image[s], image[s + 3]));
            } else {
                assert_eq!(t[i], cb(0, 0, 0, 0));
            }
        }
    }
}

#[test]
fn want_updates_without_rects_uploads_single_rect_or_whole_image() {
    let mut heap = TextureHeap::new();
    let h = heap.create(2, 2);
    let mut d = descriptor(TextureStatus::WantUpdates, 2, 2, Some(rgba_image(2, 2)));
    d.tex_id = Some(h);
    d.update_rect = UpdateRect { x: 1, y: 0, w: 1, h: 2 };
    let work = sync_descriptor(&mut heap, &mut d).unwrap();
    assert_eq!(work, vec![TextureWork::Upload { handle: h, rect: d.update_rect }]);

    let mut d2 = descriptor(TextureStatus::WantUpdates, 2, 2, Some(rgba_image(2, 2)));
    d2.tex_id = Some(h);
    let work = sync_descriptor(&mut heap, &mut d2).unwrap();
    assert_eq!(
        work,
        vec![TextureWork::Upload { handle: h, rect: UpdateRect { x: 0, y: 0, w: 2, h: 2 } }]
    );
}

#[test]
fn want_destroy_becomes_destroyed_and_stays() {
    let mut heap = TextureHeap::new();
    let h = heap.create(2, 2);
    let mut d = descriptor(TextureStatus::WantDestroy, 2, 2, Some(rgba_image(2, 2)));
    d.tex_id = Some(h);
    let work = sync_descriptor(&mut heap, &mut d).unwrap();
    assert!(work.is_empty());
    assert_eq!(d.status, TextureStatus::Destroyed);
    assert_eq!(d.tex_id, None);
    for _ in 0..3 {
        let work = sync_descriptor(&mut heap, &mut d).unwrap();
        assert!(work.is_empty());
        assert_eq!(d.status, TextureStatus::Destroyed);
        assert_eq!(d.tex_id, None);
    }
    assert_eq!(heap.len(), 1);
}

#[test]
fn descriptor_without_image_waits() {
    let mut heap = TextureHeap::new();
    let mut d = descriptor(TextureStatus::WantCreate, 2, 2, None);
    assert!(sync_descriptor(&mut heap, &mut d).unwrap().is_empty());
    assert_eq!(d.status, TextureStatus::WantCreate);
    let mut d = descriptor(TextureStatus::WantCreate, 0, 2, Some(Vec::new()));
    assert!(sync_descriptor(&mut heap, &mut d).unwrap().is_empty());
    assert_eq!(heap.len(), 0);
}

#[test]
fn update_with_wrong_size_is_a_dimension_mismatch() {
    let mut heap = TextureHeap::new();
    let h = heap.create(2, 2);
    let mut d = descriptor(TextureStatus::WantUpdates, 1, 1, Some(rgba_image(1, 1)));
    d.tex_id = Some(h);
    let r = sync_descriptor(&mut heap, &mut d);
    assert_eq!(
        r,
        Err(RenderError::DimensionMismatch { expected_width: 2, expected_height: 2, width: 1, height: 1 })
    );
    assert_eq!(d.status, TextureStatus::WantUpdates);
}

#[test]
fn plan_matches_sync_and_changes_nothing() {
    let mut heap = TextureHeap::new();
    heap.create(1, 1);
    let d = descriptor(TextureStatus::WantCreate, 2, 1, Some(rgba_image(2, 1)));
    let planned = plan_descriptor(&heap, &d).unwrap();
    assert_eq!(
        planned,
        vec![
            TextureWork::Create { handle: 1, width: 2, height: 1 },
            TextureWork::Upload { handle: 1, rect: UpdateRect { x: 0, y: 0, w: 2, h: 1 } },
        ]
    );
    assert_eq!(heap.len(), 1);
    let mut d = d;
    assert_eq!(sync_descriptor(&mut heap, &mut d).unwrap(), planned);
    assert_eq!(d.tex_id, Some(1));
}

#[test]
fn plan_reports_an_out_of_bounds_rect_without_writing() {
    let mut heap = TextureHeap::new();
    let h = heap.create(2, 2);
    let mut d = descriptor(TextureStatus::WantUpdates, 2, 2, Some(rgba_image(2, 2)));
    d.tex_id = Some(h);
    d.updates = vec![UpdateRect { x: 0, y: 0, w: 1, h: 1 }, UpdateRect { x: 1, y: 1, w: 2, h: 2 }];
    assert_eq!(plan_descriptor(&heap, &d), Err(RenderError::MappingFailure));
    assert_eq!(heap.get(h).texels, vec![cb(0, 0, 0, 0); 4]);
    assert_eq!(d.status, TextureStatus::WantUpdates);
}

#[test]
fn region_texels_convert_row_by_row() {
    let image = rgba_image(3, 2);
    let d = descriptor(TextureStatus::WantUpdates, 3, 2, Some(image.clone()));
    let t = region_texels(&d, UpdateRect { x: 1, y: 0, w: 2, h: 2 });
    let px = |x: usize, y: usize| {
        let s = (y * 3 + x) * 4;
        cb(image[s + 2], image[s + 1], image[s], image[s + 3])
    };
    assert_eq!(t, vec![px(1, 0), px(2, 0), px(1, 1), px(2, 1)]);
}

#[test]
fn empty_frame_sets_up_state_and_draws_nothing() {
    let mut engine = D3D9RenderEngine::new();
    let dd = DrawData {
        lists: vec![DrawList { vertices: Vec::new(), indices: Vec::new(), commands: Vec::new() }],
    };
    let plan = engine.prepare_frame(&dd);
    assert_eq!(plan.calls, vec![DeviceCall::SetupRenderState]);
    assert_eq!(plan.vertex_grow, None);
    assert_eq!(plan.index_grow, None);
    assert_eq!(engine.vertex_buffer.data.len(), 0);
    assert_eq!(engine.index_buffer.data.len(), 0);
    let empty = DrawData { lists: Vec::new() };
    assert_eq!(build_calls(&empty), vec![DeviceCall::SetupRenderState]);
}

fn two_list_frame() -> DrawData {
    let l0 = DrawList {
        vertices: vec![vertex(0, cb(1, 2, 3, 4)), vertex(10, cb(5, 6, 7, 8)), vertex(20, cb(9, 9, 9, 9))],
        indices: vec![0, 1, 2, 2, 1, 0],
        commands: vec![
            DrawCommand::Elements { count: 3, scissor: scissor(0, 0, 10, 10), texture: 4, vtx_offset: 0, idx_offset: 0 },
            DrawCommand::Elements { count: 3, scissor: scissor(0, 0, 10, 10), texture: 4, vtx_offset: 0, idx_offset: 3 },
            DrawCommand::Elements { count: 3, scissor: scissor(5, 5, 5, 10), texture: 7, vtx_offset: 0, idx_offset: 0 },
        ],
    };
    let l1 = DrawList {
        vertices: vec![vertex(30, cb(0, 0, 0, 0)), vertex(40, cb(0, 0, 0, 0))],
        indices: vec![0, 1, 1, 0, 1, 0],
        commands: vec![
            DrawCommand::RawCallback,
            DrawCommand::ResetRenderState,
            DrawCommand::Elements { count: 6, scissor: scissor(1, 2, 3, 4), texture: 4, vtx_offset: 1, idx_offset: 0 },
            DrawCommand::Elements { count: 3, scissor: scissor(1, 2, 3, 4), texture: 5, vtx_offset: 0, idx_offset: 3 },
        ],
    };
    DrawData { lists: vec![l0, l1] }
}

#[test]
fn frame_calls_coalesce_binds_skip_empty_scissors_and_offset_lists() {
    let dd = two_list_frame();
    let calls = build_calls(&dd);
    let s0 = scissor(0, 0, 10, 10);
    let s1 = scissor(1, 2, 3, 4);
    assert_eq!(
        calls,
        vec![
            DeviceCall::SetupRenderState,
            DeviceCall::SetTexture { handle: 4 },
            DeviceCall::SetScissor { rect: s0 },
            DeviceCall::DrawIndexed { base_vertex: 0, num_vertices: 3, start_index: 0, prim_count: 1 },
            DeviceCall::SetScissor { rect: s0 },
            DeviceCall::DrawIndexed { base_vertex: 0, num_vertices: 3, start_index: 3, prim_count: 1 },
            DeviceCall::Callback { list: 1, command: 0 },
            DeviceCall::SetupRenderState,
            DeviceCall::SetScissor { rect: s1 },
            DeviceCall::DrawIndexed { base_vertex: 4, num_vertices: 2, start_index: 6, prim_count: 2 },
            DeviceCall::SetTexture { handle: 5 },
            DeviceCall::SetScissor { rect: s1 },
            DeviceCall::DrawIndexed { base_vertex: 3, num_vertices: 2, start_index: 9, prim_count: 1 },
        ]
    );
}

#[test]
fn flatten_converts_colors_and_keeps_list_order() {
    let dd = two_list_frame();
    let (vs, is) = flatten(&dd);
    assert_eq!(vs.len(), 5);
    assert_eq!(
        vs[0],
        NativeVertex { x: 0, y: 1, z: 0, col: cb(3, 2, 1, 4), u: 2, v: 3 }
    );
    assert_eq!(vs[1].col, cb(7, 6, 5, 8));
    assert_eq!(vs[3].x, 30);
    assert_eq!(is, vec![0, 1, 2, 2, 1, 0, 0, 1, 1, 0, 1, 0]);
}

#[test]
fn prepare_frame_grows_buffers_that_do_not_fit() {
    let mut engine = D3D9RenderEngine::new();
    assert_eq!(engine.vertex_buffer.resource_capacity, INITIAL_VERTEX_CAPACITY);
    assert_eq!(engine.index_buffer.resource_capacity, INITIAL_INDEX_CAPACITY);
    let n = INITIAL_VERTEX_CAPACITY + 1;
    let list = DrawList {
        vertices: (0..n as u32).map(|i| vertex(i, cb(0, 0, 0, 0))).collect(),
        indices: vec![0; 3],
        commands: Vec::new(),
    };
    let plan = engine.prepare_frame(&DrawData { lists: vec![list] });
    assert_eq!(plan.vertex_grow, Some(n));
    assert_eq!(plan.index_grow, None);
    assert_eq!(engine.vertex_buffer.resource_capacity, INITIAL_VERTEX_CAPACITY);
    engine.vertex_buffer.resource_replaced(n);
    assert_eq!(engine.vertex_buffer.resource_capacity, n);
    let plan = engine.prepare_frame(&DrawData { lists: Vec::new() });
    assert_eq!(plan.vertex_grow, None);
    assert_eq!(engine.vertex_buffer.resource_capacity, n);
}

#[test]
fn restore_replays_block_first_and_render_target_last() {
    assert_eq!(
        restore_sequence(),
        vec![
            RestoreStep::ApplyStateBlock,
            RestoreStep::World,
            RestoreStep::View,
            RestoreStep::Projection,
            RestoreStep::Viewport,
            RestoreStep::RenderTarget,
        ]
    );
}

#[test]
fn load_and_replace_texture() {
    let mut engine = D3D9RenderEngine::new();
    assert_eq!(engine.load_texture(&rgba_image(2, 2), 2, 2), Ok(0));
    assert_eq!(engine.load_texture(&rgba_image(1, 1), 1, 1), Ok(1));
    assert_eq!(engine.replace_texture(0, &vec![9, 8, 7, 6].repeat(4), 2, 2), Ok(()));
    assert_eq!(engine.textures.get(0).texels, vec![cb(7, 8, 9, 6); 4]);
    assert_eq!(
        engine.replace_texture(1, &rgba_image(2, 2), 2, 2),
        Err(RenderError::DimensionMismatch { expected_width: 1, expected_height: 1, width: 2, height: 2 })
    );
}

#[test]
fn update_textures_through_the_engine() {
    let mut engine = D3D9RenderEngine::new();
    let mut d = descriptor(TextureStatus::WantCreate, 2, 2, Some(rgba_image(2, 2)));
    let planned = engine.plan_texture(&d).unwrap();
    assert_eq!(engine.textures.len(), 0);
    let work = engine.update_texture(&mut d).unwrap();
    assert_eq!(work, planned);
    assert_eq!(work.len(), 2);
    assert_eq!(d.status, TextureStatus::Ready);
    assert_eq!(engine.textures.len(), 1);
}
